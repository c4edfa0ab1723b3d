use sweech::config::{
    apply_set, apply_unset, expand_tilde, framework_manifests, path_dep_string, path_source_deps, resolve_dep_strings,
    set_path_source, source_summary, ConfigError,
    SourceConfig, SourceType, SweechConfig,
};

#[test]
fn git_source_produces_correct_deps() {
    let source = SourceConfig {
        kind: SourceType::Git,
        url: Some("https://github.com/devWithKD/sweech".to_string()),
        ..Default::default()
    };
    let (core, axum) = resolve_dep_strings(&source).unwrap();
    assert!(core.contains("git = \"https://github.com/devWithKD/sweech\""));
    assert!(core.contains("package = \"sweech-core\""));
    assert!(axum.contains("package = \"sweech-axum\""));
}

#[test]
fn crates_source_produces_version_string() {
    let source = SourceConfig {
        kind: SourceType::Crates,
        version: Some("0.2".to_string()),
        ..Default::default()
    };
    let (core, axum) = resolve_dep_strings(&source).unwrap();
    assert_eq!(core, "\"0.2\"");
    assert_eq!(axum, "\"0.2\"");
}

#[test]
fn unset_source_returns_none() {
    let source = SourceConfig::default();
    assert!(resolve_dep_strings(&source).is_none());
}

#[test]
fn git_dep_text_is_exact() {
    let source = SourceConfig { kind: SourceType::Git, url: Some("u".to_string()), ..Default::default() };
    let (core, axum) = resolve_dep_strings(&source).unwrap();
    assert_eq!(core, "{ git = \"u\", package = \"sweech-core\" }");
    assert_eq!(axum, "{ git = \"u\", package = \"sweech-axum\" }");
}

#[test]
fn crates_without_version_is_any() {
    let source = SourceConfig { kind: SourceType::Crates, ..Default::default() };
    assert_eq!(resolve_dep_strings(&source).unwrap(), ("\"*\"".to_string(), "\"*\"".to_string()));
}

#[test]
fn sources_missing_their_value_give_nothing() {
    let git = SourceConfig { kind: SourceType::Git, ..Default::default() };
    assert!(resolve_dep_strings(&git).is_none());
    let path = SourceConfig { kind: SourceType::Path, ..Default::default() };
    assert!(resolve_dep_strings(&path).is_none());
}

#[test]
fn path_source_points_at_both_crates() {
    let source = SourceConfig {
        kind: SourceType::Path,
        path: Some("/nonexistent/sweech-root".to_string()),
        ..Default::default()
    };
    let (core, axum) = resolve_dep_strings(&source).unwrap();
    assert_eq!(core, "{ path = \"/nonexistent/sweech-root/sweech-core\" }");
    assert_eq!(axum, "{ path = \"/nonexistent/sweech-root/sweech-axum\" }");
    assert_eq!(path_dep_string("/x"), "{ path = \"/x\" }");
}

#[test]
fn tilde_is_expanded_with_home() {
    assert_eq!(expand_tilde("~/sweech", Some("/home/k")), "/home/k/sweech");
    assert_eq!(expand_tilde("~/sweech", None), "~/sweech");
    assert_eq!(expand_tilde("/abs/~/x", Some("/home/k")), "/abs/~/x");
    assert_eq!(expand_tilde("~", Some("/home/k")), "~");
}

#[test]
fn set_source_url_clears_the_rest() {
    let mut config = SweechConfig::default();
    config.source.kind = SourceType::Crates;
    config.source.version = Some("0.1".to_string());
    let c = apply_set(config, "source-url", "https://example.com/sweech", None).unwrap();
    assert_eq!(c.source.kind, SourceType::Git);
    assert_eq!(c.source.url.as_deref(), Some("https://example.com/sweech"));
    assert!(c.source.version.is_none());
    assert!(c.source.path.is_none());
}

#[test]
fn set_source_version_and_unknown_key() {
    let c = apply_set(SweechConfig::default(), "source.version", "0.3", None).unwrap();
    assert_eq!(c.source.kind, SourceType::Crates);
    assert_eq!(c.source.version.as_deref(), Some("0.3"));
    let e = apply_set(SweechConfig::default(), "colour", "red", None).unwrap_err();
    assert_eq!(e, ConfigError::UnknownSetKey("colour".to_string()));
    assert_eq!(
        e.message(),
        "Unknown config key 'colour'.\nValid keys: source-url, source-path, source-version"
    );
}

#[test]
fn set_source_path_without_crates_is_refused() {
    let e = apply_set(SweechConfig::default(), "source-path", "/nonexistent/sweech-root", None).unwrap_err();
    assert_eq!(e, ConfigError::CoreNotFound("/nonexistent/sweech-root".to_string()));
    assert!(e.message().starts_with("sweech-core not found at '/nonexistent/sweech-root'."));
}

#[test]
fn unset_clears_source() {
    let mut config = SweechConfig::default();
    config.source.kind = SourceType::Git;
    config.source.url = Some("u".to_string());
    let c = apply_unset(config.clone(), "source").unwrap();
    assert_eq!(c.source.kind, SourceType::Unset);
    assert!(c.source.url.is_none());
    let e = apply_unset(config, "nope").unwrap_err();
    assert_eq!(e.message(), "Unknown config key 'nope'.");
}

#[test]
fn summary_of_each_source_kind() {
    let s = source_summary(&SourceConfig::default());
    assert_eq!(s.kind, "not set");
    assert!(s.setting.is_none());
    let s = source_summary(&SourceConfig { kind: SourceType::Git, ..Default::default() });
    assert_eq!(s.kind, "git");
    assert_eq!(s.setting, Some(("url", "(not set)".to_string())));
    let s = source_summary(&SourceConfig { kind: SourceType::Crates, ..Default::default() });
    assert_eq!(s.setting, Some(("version", "*".to_string())));
}

#[test]
fn path_source_is_set_only_with_both_crates() {
    let base = SweechConfig::default();
    let ok = set_path_source(base.clone(), "/w".to_string(), true, true).unwrap();
    assert_eq!(ok.source.kind, SourceType::Path);
    assert_eq!(ok.source.path.as_deref(), Some("/w"));
    assert_eq!(ok.source.url, None);
    assert_eq!(ok.source.version, None);
    assert_eq!(
        set_path_source(base.clone(), "/w".to_string(), false, false).unwrap_err(),
        ConfigError::CoreNotFound("/w".to_string())
    );
    assert_eq!(
        set_path_source(base, "/w".to_string(), true, false).unwrap_err(),
        ConfigError::AxumNotFound("/w".to_string())
    );
}

#[test]
fn framework_manifests_are_inside_each_crate() {
    assert_eq!(
        framework_manifests("/w"),
        ("/w/sweech-core/Cargo.toml".to_string(), "/w/sweech-axum/Cargo.toml".to_string())
    );
    assert_eq!(
        path_source_deps("/c", "/a"),
        ("{ path = \"/c\" }".to_string(), "{ path = \"/a\" }".to_string())
    );
}

#[test]
fn path_source_lines_name_each_crate_folder() {
    let source = SourceConfig { kind: SourceType::Path, path: Some("/no-such-ws".to_string()), ..Default::default() };
    let (core, axum) = resolve_dep_strings(&source).unwrap();
    assert_eq!(core, "{ path = \"/no-such-ws/sweech-core\" }");
    assert_eq!(axum, "{ path = \"/no-such-ws/sweech-axum\" }");
}
