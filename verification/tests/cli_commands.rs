use sweech::commands::{
    applet_dir_path, auto_detect_sweech_root, check_applet_dir, check_handler_target, check_project_dir,
    deps_or_fallback, handler_paths, path_deps_from, workspace_probes, count_issues, embedded_frontend, first_workspace, list_workspace_candidates, is_valid_name, parse_auth, plan_add_applet, plan_add_handler,
    plan_project_name, resolve_sweech_deps, standalone_dockerfiles, standalone_frontend_dockerfile,
    CommandError,
};
use sweech::config::{SourceConfig, SourceType, SweechConfig};
use sweech::manifest::{
    default_version, AuthSetting, BuildConfig, BuildMode, DeployTarget, EnvConfig, FrontendFramework,
    FrontendManifest, HttpConfig, Manifest, PluginsConfig, ProjectConfig, Runtime, ServeMode,
};
use sweech::validator::{Severity, ValidationIssue};

fn manifest_with(frontends: Vec<FrontendManifest>) -> Manifest {
    Manifest {
        project: ProjectConfig { name: "testapp".to_string(), version: default_version(), description: None },
        build: BuildConfig { mode: BuildMode::Monolith, provider: None, runtime: Runtime::Rust, port: 3000 },
        applets: vec![],
        frontends,
        packages: vec![],
        http: HttpConfig::default(),
        plugins: PluginsConfig::default(),
        tasks: vec![],
        env: EnvConfig::default(),
    }
}

fn web(name: &str, serve: Option<ServeMode>, build: Option<&str>) -> FrontendManifest {
    FrontendManifest {
        name: name.to_string(),
        path: format!("apps/{}", name),
        framework: FrontendFramework::Next,
        deploy_target: DeployTarget::Build,
        serve,
        api_prefix: "/api".to_string(),
        dev_command: None,
        build_command: build.map(|b| b.to_string()),
        port: None,
    }
}

#[test]
fn auth_words_parse() {
    assert_eq!(parse_auth(None), Ok(AuthSetting::Required));
    assert_eq!(parse_auth(Some("required")), Ok(AuthSetting::Required));
    assert_eq!(parse_auth(Some("public")), Ok(AuthSetting::Public));
    assert_eq!(parse_auth(Some("optional")), Ok(AuthSetting::Optional));
    let e = parse_auth(Some("Public")).unwrap_err();
    assert_eq!(e.message(), "Unknown auth value 'Public'. Use: required, public, optional.");
}

#[test]
fn names_are_checked() {
    assert!(is_valid_name("my-app_2"));
    assert!(!is_valid_name("my app"));
    assert!(!is_valid_name("a/b"));
    assert!(is_valid_name(""));
}

#[test]
fn add_applet_plan() {
    let mut m = manifest_with(vec![]);
    let entry = plan_add_applet("inventory", Some("public"), &m).unwrap();
    assert_eq!(entry.name, "inventory");
    assert_eq!(entry.path, "inventory.applet");
    assert_eq!(entry.auth, AuthSetting::Public);
    assert!(entry.guards.is_empty() && !entry.stateful && entry.runtime.is_none());
    m.applets.push(entry);
    assert_eq!(
        plan_add_applet("inventory", None, &m).unwrap_err(),
        CommandError::AppletAlreadyDeclared("inventory".to_string())
    );
    assert_eq!(
        plan_add_applet("bad name", None, &m).unwrap_err().message(),
        "Applet name 'bad name' contains invalid characters.\nUse lowercase letters, numbers, hyphens, or underscores."
    );
    assert_eq!(
        plan_add_applet("catalog", Some("everyone"), &m).unwrap_err(),
        CommandError::UnknownAuth("everyone".to_string())
    );
}

#[test]
fn add_handler_plan_nested() {
    let plan = plan_add_handler("inventory/items", Some("GET"), None).unwrap();
    assert_eq!(plan.applet_name, "inventory");
    assert_eq!(plan.route_subpath, "items");
    assert_eq!(plan.handler_name, "get_items");
    assert_eq!(plan.method, "GET");
    assert_eq!(plan.url, "/inventory/items");
    assert_eq!(plan.auth, AuthSetting::Required);
}

#[test]
fn add_handler_plan_dynamic_segment() {
    let plan = plan_add_handler("inventory/items/[itemId]", Some("DELETE"), Some("optional")).unwrap();
    assert_eq!(plan.route_subpath, "items/[itemId]");
    assert_eq!(plan.handler_name, "delete_itemId");
    assert_eq!(plan.url, "/inventory/items/:itemId");
    assert_eq!(plan.auth, AuthSetting::Optional);
    let plan = plan_add_handler("docs/[...slug]", None, None).unwrap();
    assert_eq!(plan.handler_name, "get_slug");
    assert_eq!(plan.method, "GET");
}

#[test]
fn add_handler_plan_errors() {
    assert_eq!(plan_add_handler("inventory", None, None).unwrap_err(), CommandError::HandlerPathFormat);
    assert_eq!(
        CommandError::HandlerPathFormat.message(),
        "Path must be in format <applet>/<route-path>.\nExample: sweech add handler inventory/items"
    );
    assert!(plan_add_handler("a/b", None, Some("x")).is_err());
}

#[test]
fn project_name_defaults() {
    assert_eq!(plan_project_name(None).unwrap(), "my-sweech-app");
    assert_eq!(plan_project_name(Some("my-app".to_string())).unwrap(), "my-app");
    assert_eq!(
        plan_project_name(Some("my app".to_string())).unwrap_err(),
        CommandError::InvalidProjectName("my app".to_string())
    );
}

#[test]
fn deps_from_configured_source() {
    let mut config = SweechConfig::default();
    config.source = SourceConfig { kind: SourceType::Git, url: Some("https://x".to_string()), ..Default::default() };
    let (core, axum, note) = resolve_sweech_deps(None, &config, None).unwrap();
    assert_eq!(core, "{ git = \"https://x\", package = \"sweech-core\" }");
    assert_eq!(axum, "{ git = \"https://x\", package = \"sweech-axum\" }");
    assert_eq!(note, "Source: git (https://x)");
    config.source = SourceConfig { kind: SourceType::Crates, ..Default::default() };
    let (_, _, note) = resolve_sweech_deps(None, &config, None).unwrap();
    assert_eq!(note, "Source: crates.io (*)");
}

#[test]
fn deps_fall_back_to_placeholder() {
    let (core, _axum, note) = resolve_sweech_deps(None, &SweechConfig::default(), Some("/nonexistent/dir")).unwrap();
    assert!(core.starts_with("{ path = \"../sweech/sweech-core\" }"));
    assert!(note.starts_with("No sweech source configured."));
}

#[test]
fn explicit_path_without_crates_is_refused() {
    match resolve_sweech_deps(Some("/nonexistent/dir"), &SweechConfig::default(), None) {
        Err(CommandError::CoreNotFound(p)) => assert_eq!(p, "/nonexistent/dir/sweech-core"),
        other => panic!("unexpected {:?}", other),
    }
}

#[test]
fn dockerfile_planning() {
    let m = manifest_with(vec![
        web("site", Some(ServeMode::Standalone), Some("pnpm build")),
        web("app", Some(ServeMode::Embedded), None),
        web("docs", Some(ServeMode::Standalone), None),
    ]);
    assert_eq!(embedded_frontend(&m), Some(1));
    let files = standalone_dockerfiles(&m);
    assert_eq!(files.len(), 2);
    assert_eq!(files[0].file_name, "Dockerfile.site");
    assert!(files[0].content.contains("RUN pnpm build\n"));
    assert!(files[0].content.contains("COPY apps/site/package*.json ./"));
    assert_eq!(files[1].file_name, "Dockerfile.docs");
    assert!(files[1].content.contains("RUN npm run build\n"));
    assert_eq!(embedded_frontend(&manifest_with(vec![])), None);
}

#[test]
fn standalone_dockerfile_text() {
    let text = standalone_frontend_dockerfile("apps/web", "npm run build");
    assert!(text.starts_with("# syntax=docker/dockerfile:1\n"));
    assert!(text.contains("COPY apps/web/ ./\nRUN npm run build\n\nFROM nginx:alpine AS runtime\n"));
    assert!(text.ends_with("CMD [\"nginx\", \"-g\", \"daemon off;\"]\n"));
}

#[test]
fn issues_are_counted_by_severity() {
    let issues = vec![
        ValidationIssue { severity: Severity::Error, code: "A", message: String::new() },
        ValidationIssue { severity: Severity::Warning, code: "B", message: String::new() },
        ValidationIssue { severity: Severity::Error, code: "C", message: String::new() },
    ];
    assert_eq!(count_issues(&issues, Severity::Error), 2);
    assert_eq!(count_issues(&issues, Severity::Warning), 1);
}

#[test]
fn auto_detect_gives_nothing_for_a_root() {
    assert_eq!(auto_detect_sweech_root("/"), None);
}

#[test]
fn auto_detect_gives_nothing_without_the_workspace() {
    assert_eq!(auto_detect_sweech_root("/no-such-place/a/b/c/d/e/sweech"), None);
}

#[test]
fn workspace_candidates_walk_up_four_folders() {
    assert_eq!(
        list_workspace_candidates("/a/b/c/d/e/sweech"),
        vec!["/a/b/c/d/e".to_string(), "/a/b/c/d".to_string(), "/a/b/c".to_string(), "/a/b".to_string()]
    );
    assert_eq!(list_workspace_candidates("/a/sweech"), vec!["/a".to_string(), "/".to_string()]);
    assert!(list_workspace_candidates("/").is_empty());
}

#[test]
fn first_marked_workspace_is_picked() {
    let checked = vec![
        ("/a/b".to_string(), false),
        ("/a".to_string(), true),
        ("/".to_string(), true),
    ];
    assert_eq!(first_workspace(&checked), Some("/a".to_string()));
    assert_eq!(first_workspace(&vec![("/a".to_string(), false)]), None);
    assert_eq!(first_workspace(&vec![]), None);
}

#[test]
fn fallback_note_matches_the_printed_text() {
    let (_, axum, note) = resolve_sweech_deps(None, &SweechConfig::default(), None).unwrap();
    assert_eq!(axum, "{ path = \"../sweech/sweech-axum\" }  # TODO: run `sweech config set source-url <url>`");
    assert_eq!(
        note,
        "No sweech source configured.\n  Run: sweech config set source-url https://github.com/devWithKD/sweech\n  or: sweech config set source-path /path/to/sweech"
    );
}

#[test]
fn path_deps_keep_each_crate_on_its_line() {
    let ok = path_deps_from("/w", true, true, "/abs/core", "/abs/axum", "/w").unwrap();
    assert_eq!(ok.0, "{ path = \"/abs/core\" }");
    assert_eq!(ok.1, "{ path = \"/abs/axum\" }");
    assert_eq!(ok.2, "Source: path (/w)");
    assert_eq!(
        path_deps_from("/w", false, false, "", "", "/w").unwrap_err(),
        CommandError::CoreNotFound("/w/sweech-core".to_string())
    );
    assert_eq!(
        path_deps_from("/w", true, false, "", "", "/w").unwrap_err(),
        CommandError::AxumNotFound("/w/sweech-axum".to_string())
    );
}

#[test]
fn detected_workspace_is_used_when_found() {
    let t = ("a".to_string(), "b".to_string(), "c".to_string());
    assert_eq!(deps_or_fallback(Some(Ok(t.clone()))), t);
    let fallback = deps_or_fallback(None);
    assert!(fallback.0.starts_with("{ path = \"../sweech/sweech-core\" }"));
    assert_eq!(deps_or_fallback(Some(Err(CommandError::CoreNotFound("x".to_string())))), fallback);
}

#[test]
fn workspace_probes_name_both_manifests() {
    let probes = workspace_probes("/a/b/sweech");
    assert_eq!(probes.len(), 3);
    assert_eq!(
        probes[0],
        (
            "/a/b".to_string(),
            "/a/b/sweech-core/Cargo.toml".to_string(),
            "/a/b/sweech-axum/Cargo.toml".to_string()
        )
    );
    assert_eq!(probes[2].0, "/");
}

#[test]
fn existing_folders_are_refused() {
    assert_eq!(applet_dir_path("/proj", "billing"), "/proj/billing.applet");
    assert_eq!(
        check_applet_dir("/proj/billing.applet", true).unwrap_err().message(),
        "Directory '/proj/billing.applet' already exists."
    );
    assert!(check_applet_dir("/proj/billing.applet", false).is_ok());
    assert_eq!(
        check_project_dir("my-app", true).unwrap_err().message(),
        "Directory 'my-app' already exists. Remove it or choose a different name."
    );
    assert!(check_project_dir("my-app", false).is_ok());
}

#[test]
fn handler_target_checks() {
    let plan = plan_add_handler("inventory/items/[itemId]", None, None).unwrap();
    let (applet_dir, route_file) = handler_paths("/proj", &plan);
    assert_eq!(applet_dir, "/proj/inventory.applet");
    assert_eq!(route_file, "/proj/inventory.applet/items/[itemId]/route.rs");
    assert_eq!(
        check_handler_target(&plan, false, &route_file, false).unwrap_err().message(),
        "Applet directory 'inventory.applet' not found.\nRun `sweech add applet inventory` first."
    );
    assert_eq!(
        check_handler_target(&plan, true, &route_file, true).unwrap_err(),
        CommandError::RouteFileExists("/proj/inventory.applet/items/[itemId]/route.rs".to_string())
    );
    assert!(check_handler_target(&plan, true, &route_file, false).is_ok());
}
