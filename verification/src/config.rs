use vstd::prelude::*;
use std::path::PathBuf;
use crate::text::{cat, owned, str_eq, starts_with, is_prefix, slice};

verus! {

/// The global configuration (`~/.config/sweech/config.toml`).
#[derive(Debug, Default, Clone)]
pub struct SweechConfig {
    pub source: SourceConfig,
}

/// Where `sweech init` finds the framework crates.
#[derive(Debug, Default, Clone)]
pub struct SourceConfig {
    /// Which kind of source is set (`type` in the file).
    pub kind: SourceType,
    /// The repository, for a git source.
    pub url: Option<String>,
    /// The workspace directory, for a path source.
    pub path: Option<String>,
    /// The version, for a crates.io source.
    pub version: Option<String>,
}

/// The kind of source; `Unset` until one is configured.
#[derive(Debug, Clone, Copy, PartialEq, Eq, Structural)]
pub enum SourceType {
    Unset,
    Git,
    Path,
    Crates,
}

impl Default for SourceType {
    fn default() -> (r: Self)
        ensures
            r == SourceType::Unset,
    {
        SourceType::Unset
    }
}

/// The dependency written for a git source: `{ git = "<url>", package = "<package>" }`.
pub open spec fn git_dep(url: Seq<char>, package: Seq<char>) -> Seq<char> {
    "{ git = \""@ + url + "\", package = \""@ + package + "\" }"@
}

/// The dependency written for a local path: `{ path = "<path>" }`.
pub open spec fn path_dep(path: Seq<char>) -> Seq<char> {
    "{ path = \""@ + path + "\" }"@
}

/// The dependency written for a crates.io version: the version in quotes.
pub open spec fn version_dep(version: Seq<char>) -> Seq<char> {
    "\""@ + version + "\""@
}

/// The version of a crates.io source: the configured one, or `*`.
pub open spec fn version_or_any(v: Option<String>) -> Seq<char> {
    match v {
        Some(s) => s@,
        None => "*"@,
    }
}

/// The pair of path dependencies for some locations of the two crates.
pub open spec fn is_path_dep_pair(r: (String, String)) -> bool {
    exists|c: Seq<char>, a: Seq<char>| r.0@ == path_dep(c) && r.1@ == path_dep(a)
}

/// The text of `base` joined with `child` by `Path::join` and shown with
/// `display`: a function of the two texts under the platform's path rules.
pub uninterp spec fn joined(base: Seq<char>, child: Seq<char>) -> Seq<char>;

/// Joins `child` onto `base` as `Path::join` does, and shows the result.
/// The result is named by `joined`, not spelled out: how the two are
/// joined depends on the platform's path rules.
#[verifier::external_body]
pub(crate) fn child_path(base: &str, child: &str) -> (r: String)
    ensures
        r@ == joined(base@, child@),
{
    PathBuf::from(base).join(child).display().to_string()
}

/// The folder of the framework crate `name` in the workspace at `base`.
pub open spec fn crate_dir(base: Seq<char>, name: Seq<char>) -> Seq<char> {
    joined(base, name)
}

/// The `Cargo.toml` of the framework crate `name` in the workspace at `base`.
pub open spec fn crate_manifest(base: Seq<char>, name: Seq<char>) -> Seq<char> {
    joined(joined(base, name), "Cargo.toml"@)
}

/// The folders of `sweech-core` and `sweech-axum` in the workspace at `dir`.
pub fn framework_dirs(dir: &str) -> (r: (String, String))
    ensures
        r.0@ == crate_dir(dir@, "sweech-core"@),
        r.1@ == crate_dir(dir@, "sweech-axum"@),
{
    (child_path(dir, "sweech-core"), child_path(dir, "sweech-axum"))
}

/// The `Cargo.toml` files of `sweech-core` and `sweech-axum` in the
/// workspace at `dir`: the files whose presence marks a framework workspace.
pub fn framework_manifests(dir: &str) -> (r: (String, String))
    ensures
        r.0@ == crate_manifest(dir@, "sweech-core"@),
        r.1@ == crate_manifest(dir@, "sweech-axum"@),
{
    let (core_dir, axum_dir) = framework_dirs(dir);
    (child_path(core_dir.as_str(), "Cargo.toml"), child_path(axum_dir.as_str(), "Cargo.toml"))
}

/// Resolves `path` to its canonical absolute form with
/// `Path::canonicalize`, keeping `path` as it is when that fails, and
/// shows the result. It depends on what is on disk; nothing is stated.
#[verifier::external_body]
pub(crate) fn canonical_or_same(path: &str) -> String {
    let p = PathBuf::from(path);
    match p.canonicalize() {
        Ok(c) => c.display().to_string(),
        Err(_) => p.display().to_string(),
    }
}

/// Whether something exists at `path`, as `Path::exists` says. It depends
/// on what is on disk; nothing is stated.
#[verifier::external_body]
pub(crate) fn path_exists(path: &str) -> bool {
    PathBuf::from(path).exists()
}

/// The folder that holds `path`, as `Path::parent` gives it from the text
/// alone; `None` for a root or an empty path.
pub uninterp spec fn parent_of(path: Seq<char>) -> Option<Seq<char>>;

/// The folder that holds `path` (`Path::parent`), shown as text. The
/// result is named, not spelled out: it is a function of the text.
#[verifier::external_body]
pub(crate) fn parent_dir(path: &str) -> (r: Option<String>)
    ensures
        match r {
            Some(p) => parent_of(path@) == Some(p@),
            None => parent_of(path@) is None,
        },
{
    match PathBuf::from(path).parent() {
        Some(p) => Some(p.display().to_string()),
        None => None,
    }
}

/// The folders `start`, its parent, and so on, at most `n` of them,
/// ending early where a folder has no parent.
pub open spec fn folders_upward(start: Option<Seq<char>>, n: nat) -> Seq<Seq<char>>
    decreases n,
{
    if n == 0 {
        Seq::empty()
    } else {
        match start {
            Some(p) => seq![p] + folders_upward(parent_of(p), (n - 1) as nat),
            None => Seq::empty(),
        }
    }
}

/// `{ git = "<url>", package = "<package>" }`.
fn git_dep_string(url: &str, package: &str) -> (r: String)
    ensures
        r@ == git_dep(url@, package@),
{
    let mut s = cat("{ git = \"", url);
    s.append("\", package = \"");
    s.append(package);
    s.append("\" }");
    s
}

/// `{ path = "<path>" }`.
pub fn path_dep_string(path: &str) -> (r: String)
    ensures
        r@ == path_dep(path@),
{
    let mut s = cat("{ path = \"", path);
    s.append("\" }");
    s
}

/// The version in double quotes.
fn version_dep_string(version: &str) -> (r: String)
    ensures
        r@ == version_dep(version@),
{
    let mut s = cat("\"", version);
    s.append("\"");
    s
}

/// The path dependencies on `sweech-core` and `sweech-axum` at the
/// folders `core_dir` and `axum_dir`, in that order.
pub fn path_source_deps(core_dir: &str, axum_dir: &str) -> (r: (String, String))
    ensures
        r.0@ == path_dep(core_dir@),
        r.1@ == path_dep(axum_dir@),
{
    (path_dep_string(core_dir), path_dep_string(axum_dir))
}

/// The Cargo.toml dependency lines for `sweech-core` and `sweech-axum`
/// under a configured source: a git source names the repository and each
/// package; a path source points at each crate's folder under the
/// configured directory (made canonical where possible); a crates.io
/// source gives the version in quotes, `*` when none is set. A git source
/// without a URL, a path source without a path, and an unset source give
/// nothing.
pub fn resolve_dep_strings(source: &SourceConfig) -> (r: Option<(String, String)>)
    ensures
        match source.kind {
            SourceType::Git => match source.url {
                Some(url) => (r matches Some(p) && p.0@ == git_dep(url@, "sweech-core"@)
                    && p.1@ == git_dep(url@, "sweech-axum"@)),
                None => r is None,
            },
            SourceType::Path => match source.path {
                Some(_) => (r matches Some(p) && is_path_dep_pair(p)),
                None => r is None,
            },
            SourceType::Crates => (r matches Some(p)
                && p.0@ == version_dep(version_or_any(source.version))
                && p.1@ == version_dep(version_or_any(source.version))),
            SourceType::Unset => r is None,
        },
{
    match source.kind {
        SourceType::Git => match &source.url {
            Some(url) => Some((git_dep_string(url.as_str(), "sweech-core"), git_dep_string(url.as_str(), "sweech-axum"))),
            None => None,
        },
        SourceType::Path => match &source.path {
            Some(base) => {
                let (core_dir, axum_dir) = framework_dirs(base.as_str());
                let core_abs = canonical_or_same(core_dir.as_str());
                let axum_abs = canonical_or_same(axum_dir.as_str());
                Some(path_source_deps(core_abs.as_str(), axum_abs.as_str()))
            },
            None => None,
        },
        SourceType::Crates => {
            let version = match &source.version {
                Some(v) => v.as_str(),
                None => "*",
            };
            Some((version_dep_string(version), version_dep_string(version)))
        },
        SourceType::Unset => None,
    }
}

/// `path` with a leading `~/` replaced by the home directory and a "/",
/// when the home directory is known.
pub open spec fn expanded_path(path: Seq<char>, home: Option<Seq<char>>) -> Seq<char> {
    if is_prefix("~/"@, path) && home is Some {
        home->0 + "/"@ + path.skip(2)
    } else {
        path
    }
}

/// Expands a leading `~/` to the home directory `home` (the value of
/// `HOME`, when it is set).
pub fn expand_tilde(path: &str, home: Option<&str>) -> (r: String)
    ensures
        r@ == expanded_path(path@, match home { Some(h) => Some(h@), None => None }),
{
    proof {
        reveal_strlit("~/");
    }
    if starts_with(path, "~/") {
        match home {
            Some(h) => {
                let n = path.unicode_len();
                let rest = slice(path, 2, n);
                let mut s = cat(h, "/");
                s.append(rest.as_str());
                assert(path@.subrange(2, n as int) =~= path@.skip(2));
                return s;
            },
            None => {},
        }
    }
    owned(path)
}

/// Why a configuration change was refused.
#[derive(Debug, Clone, PartialEq, Eq)]
pub enum ConfigError {
    /// `config set` with a key it does not know.
    UnknownSetKey(String),
    /// `config unset` with a key it does not know.
    UnknownUnsetKey(String),
    /// No `sweech-core/Cargo.toml` under the given workspace path.
    CoreNotFound(String),
    /// No `sweech-axum/Cargo.toml` under the given workspace path.
    AxumNotFound(String),
}

/// The text shown for a refused configuration change.
pub open spec fn config_error_text(e: ConfigError) -> Seq<char> {
    match e {
        ConfigError::UnknownSetKey(k) => "Unknown config key '"@ + k@
            + "'.\nValid keys: source-url, source-path, source-version"@,
        ConfigError::UnknownUnsetKey(k) => "Unknown config key '"@ + k@ + "'."@,
        ConfigError::CoreNotFound(p) => "sweech-core not found at '"@ + p@
            + "'.\nMake sure the path points to the sweech workspace root\n(the directory containing sweech-core/ and sweech-axum/)."@,
        ConfigError::AxumNotFound(p) => "sweech-axum not found at '"@ + p@ + "'."@,
    }
}

impl ConfigError {
    /// The text shown for the error.
    pub fn message(&self) -> (r: String)
        ensures
            r@ == config_error_text(*self),
    {
        match self {
            ConfigError::UnknownSetKey(k) => {
                let mut s = cat("Unknown config key '", k.as_str());
                s.append("'.\nValid keys: source-url, source-path, source-version");
                s
            },
            ConfigError::UnknownUnsetKey(k) => {
                let mut s = cat("Unknown config key '", k.as_str());
                s.append("'.");
                s
            },
            ConfigError::CoreNotFound(p) => {
                let mut s = cat("sweech-core not found at '", p.as_str());
                s.append("'.\nMake sure the path points to the sweech workspace root\n(the directory containing sweech-core/ and sweech-axum/).");
                s
            },
            ConfigError::AxumNotFound(p) => {
                let mut s = cat("sweech-axum not found at '", p.as_str());
                s.append("'.");
                s
            },
        }
    }
}

/// The key names a repository URL.
pub open spec fn is_url_key(k: Seq<char>) -> bool {
    k == "source-url"@ || k == "source.url"@
}

/// The key names a workspace path.
pub open spec fn is_path_key(k: Seq<char>) -> bool {
    k == "source-path"@ || k == "source.path"@
}

/// The key names a crates.io version.
pub open spec fn is_version_key(k: Seq<char>) -> bool {
    k == "source-version"@ || k == "source.version"@
}

/// The source set to exactly one kind with one value; the others cleared.
pub open spec fn source_is(s: SourceConfig, kind: SourceType, value: Seq<char>) -> bool {
    &&& s.kind == kind
    &&& (kind == SourceType::Git ==> (s.url matches Some(u) && u@ == value))
    &&& (kind == SourceType::Path ==> (s.path matches Some(p) && p@ == value))
    &&& (kind == SourceType::Crates ==> (s.version matches Some(v) && v@ == value))
    &&& (kind != SourceType::Git ==> s.url is None)
    &&& (kind != SourceType::Path ==> s.path is None)
    &&& (kind != SourceType::Crates ==> s.version is None)
}

/// `config set` for a workspace path `expanded`, given whether its
/// `sweech-core/Cargo.toml` and then its `sweech-axum/Cargo.toml` were
/// found (the second is not asked when the first is missing): the source
/// becomes that path with every other setting cleared; a missing
/// `sweech-core` is refused first, then a missing `sweech-axum`.
pub fn set_path_source(config: SweechConfig, expanded: String, core_found: bool, axum_found: bool) -> (r: Result<SweechConfig, ConfigError>)
    ensures
        !core_found ==> (r matches Err(ConfigError::CoreNotFound(p)) && p@ == expanded@),
        core_found && !axum_found ==> (r matches Err(ConfigError::AxumNotFound(p)) && p@ == expanded@),
        core_found && axum_found ==> (r matches Ok(c) && source_is(c.source, SourceType::Path, expanded@)),
{
    if !core_found {
        return Err(ConfigError::CoreNotFound(expanded));
    }
    if !axum_found {
        return Err(ConfigError::AxumNotFound(expanded));
    }
    let mut config = config;
    config.source.kind = SourceType::Path;
    config.source.path = Some(expanded);
    config.source.url = None;
    config.source.version = None;
    Ok(config)
}

/// `config set <key> <value>`: a URL key makes the source git with that
/// URL; a version key makes it crates.io with that version; a path key
/// expands `~/` with `home`, asks the disk for that folder's
/// `framework_manifests`, and lets `set_path_source` decide: the source
/// becomes that path when both crates are there. Every other setting of the
/// source is cleared. An unknown key, or a path without the crates, is
/// refused and leaves the configuration as it was.
pub fn apply_set(config: SweechConfig, key: &str, value: &str, home: Option<&str>) -> (r: Result<SweechConfig, ConfigError>)
    ensures
        is_url_key(key@) ==> (r matches Ok(c) && source_is(c.source, SourceType::Git, value@)),
        is_version_key(key@) ==> (r matches Ok(c) && source_is(c.source, SourceType::Crates, value@)),
        is_path_key(key@) ==> {
            let expanded = expanded_path(value@, match home { Some(h) => Some(h@), None => None });
            match r {
                Ok(c) => source_is(c.source, SourceType::Path, expanded),
                Err(e) => (e matches ConfigError::CoreNotFound(p) && p@ == expanded)
                    || (e matches ConfigError::AxumNotFound(p) && p@ == expanded),
            }
        },
        !is_url_key(key@) && !is_version_key(key@) && !is_path_key(key@) ==> (r matches Err(
            ConfigError::UnknownSetKey(k),
        ) && k@ == key@),
{
    proof {
        reveal_strlit("source-url");
        reveal_strlit("source.url");
        reveal_strlit("source-path");
        reveal_strlit("source.path");
        reveal_strlit("source-version");
        reveal_strlit("source.version");
        assert("source-path"@[7] != "source-version"@[7] && "source-path"@[7] != "source.version"@[7]);
        assert("source.path"@[7] != "source-version"@[7] && "source.path"@[7] != "source.version"@[7]);
        assert("source-url"@[7] != "source-path"@[7] && "source-url"@[7] != "source.path"@[7]);
        assert("source.url"@[7] != "source-path"@[7] && "source.url"@[7] != "source.path"@[7]);
        assert("source-url"@[7] != "source-version"@[7] && "source-url"@[7] != "source.version"@[7]);
        assert("source.url"@[7] != "source-version"@[7] && "source.url"@[7] != "source.version"@[7]);
    }
    let mut config = config;
    if str_eq(key, "source-url") || str_eq(key, "source.url") {
        config.source.kind = SourceType::Git;
        config.source.url = Some(owned(value));
        config.source.path = None;
        config.source.version = None;
        Ok(config)
    } else if str_eq(key, "source-path") || str_eq(key, "source.path") {
        let expanded = expand_tilde(value, home);
        let (core_manifest, axum_manifest) = framework_manifests(expanded.as_str());
        let core_found = path_exists(core_manifest.as_str());
        let axum_found = core_found && path_exists(axum_manifest.as_str());
        set_path_source(config, expanded, core_found, axum_found)
    } else if str_eq(key, "source-version") || str_eq(key, "source.version") {
        config.source.kind = SourceType::Crates;
        config.source.version = Some(owned(value));
        config.source.url = None;
        config.source.path = None;
        Ok(config)
    } else {
        Err(ConfigError::UnknownSetKey(owned(key)))
    }
}

/// A key that `config unset` accepts.
pub open spec fn is_unset_key(k: Seq<char>) -> bool {
    is_url_key(k) || is_path_key(k) || is_version_key(k) || k == "source"@
}

/// `config unset <key>`: any source key clears the whole source; an
/// unknown key is refused.
pub fn apply_unset(config: SweechConfig, key: &str) -> (r: Result<SweechConfig, ConfigError>)
    ensures
        is_unset_key(key@) ==> (r matches Ok(c) && c.source.kind == SourceType::Unset
            && c.source.url is None && c.source.path is None && c.source.version is None),
        !is_unset_key(key@) ==> (r matches Err(ConfigError::UnknownUnsetKey(k)) && k@ == key@),
{
    let mut config = config;
    if str_eq(key, "source-url") || str_eq(key, "source.url") || str_eq(key, "source-path")
        || str_eq(key, "source.path") || str_eq(key, "source-version") || str_eq(key, "source.version")
        || str_eq(key, "source") {
        config.source = SourceConfig { kind: SourceType::Unset, url: None, path: None, version: None };
        Ok(config)
    } else {
        Err(ConfigError::UnknownUnsetKey(owned(key)))
    }
}

/// What `config show` reports about the source: the kind's label, and for
/// a configured source the name and value of its setting.
#[derive(Debug)]
pub struct SourceSummary {
    pub kind: &'static str,
    pub setting: Option<(&'static str, String)>,
}

/// An optional setting, or a stand-in when it is missing.
pub open spec fn or_text(o: Option<String>, stand_in: Seq<char>) -> Seq<char> {
    match o {
        Some(s) => s@,
        None => stand_in,
    }
}

fn text_or(o: &Option<String>, stand_in: &str) -> (r: String)
    ensures
        r@ == or_text(*o, stand_in@),
{
    match o {
        Some(s) => owned(s.as_str()),
        None => owned(stand_in),
    }
}

/// Summarises the source for `config show`: unset shows "not set"; git
/// shows its URL, path its path (each "(not set)" when missing); crates.io
/// shows its version, `*` when missing.
pub fn source_summary(source: &SourceConfig) -> (r: SourceSummary)
    ensures
        match source.kind {
            SourceType::Unset => r.kind@ == "not set"@ && r.setting is None,
            SourceType::Git => r.kind@ == "git"@ && (r.setting matches Some((l, v))
                && l@ == "url"@ && v@ == or_text(source.url, "(not set)"@)),
            SourceType::Path => r.kind@ == "path"@ && (r.setting matches Some((l, v))
                && l@ == "path"@ && v@ == or_text(source.path, "(not set)"@)),
            SourceType::Crates => r.kind@ == "crates.io"@ && (r.setting matches Some((l, v))
                && l@ == "version"@ && v@ == or_text(source.version, "*"@)),
        },
{
    match source.kind {
        SourceType::Unset => SourceSummary { kind: "not set", setting: None },
        SourceType::Git => SourceSummary { kind: "git", setting: Some(("url", text_or(&source.url, "(not set)"))) },
        SourceType::Path => SourceSummary { kind: "path", setting: Some(("path", text_or(&source.path, "(not set)"))) },
        SourceType::Crates => SourceSummary { kind: "crates.io", setting: Some(("version", text_or(&source.version, "*"))) },
    }
}

} // verus!
