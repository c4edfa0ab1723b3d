use vstd::prelude::*;
use crate::config::{SweechConfig, SourceConfig, SourceType, resolve_dep_strings, path_dep, path_dep_string,
    is_path_dep_pair, git_dep, version_dep, version_or_any, or_text, path_exists, child_path, canonical_or_same,
    parent_dir, parent_of, folders_upward, joined, crate_dir, crate_manifest, framework_dirs, framework_manifests,
    path_source_deps};
use crate::manifest::{Manifest, AppletManifest, AuthSetting, FrontendManifest, ServeMode};
use crate::scanner::{convert_segment, segment_of};
use crate::text::{cat, owned, str_eq, is_alphanumeric, alphanumeric, all_chars, to_lowercase, text_lower,
    split_char, find_char, trim_start_char, trim_end_char, trim_start_seq, trim_start_matches_char,
    trim_end_matches_char, trim_start_matches_str, join, join_strings, views, slice, is_suffix};
use crate::query::lemma_find_char;

verus! {

/// Why a command was refused before it touched the disk.
#[derive(Debug, Clone, PartialEq, Eq)]
pub enum CommandError {
    /// An applet name with characters other than letters, digits, `-`, `_`.
    InvalidAppletName(String),
    /// An applet the manifest already declares.
    AppletAlreadyDeclared(String),
    /// An auth value other than required, public, optional.
    UnknownAuth(String),
    /// A handler path without an applet part.
    HandlerPathFormat,
    /// A project name with characters other than letters, digits, `-`, `_`.
    InvalidProjectName(String),
    /// No `Cargo.toml` in the `sweech-core` folder shown.
    CoreNotFound(String),
    /// No `Cargo.toml` in the `sweech-axum` folder shown.
    AxumNotFound(String),
    /// `init` with a project folder that is already there.
    ProjectDirExists(String),
    /// `add applet` with an applet folder that is already there.
    AppletDirExists(String),
    /// `add handler` for an applet whose folder is missing.
    AppletDirNotFound(String),
    /// `add handler` for a route whose `route.rs` is already there.
    RouteFileExists(String),
}

/// The text shown for a refused command.
pub open spec fn command_error_text(e: CommandError) -> Seq<char> {
    match e {
        CommandError::InvalidAppletName(n) => "Applet name '"@ + n@
            + "' contains invalid characters.\nUse lowercase letters, numbers, hyphens, or underscores."@,
        CommandError::AppletAlreadyDeclared(n) => "Applet '"@ + n@ + "' is already declared in sweech.manifest.toml."@,
        CommandError::UnknownAuth(v) => "Unknown auth value '"@ + v@ + "'. Use: required, public, optional."@,
        CommandError::HandlerPathFormat =>
            "Path must be in format <applet>/<route-path>.\nExample: sweech add handler inventory/items"@,
        CommandError::InvalidProjectName(n) => "Project name '"@ + n@
            + "' contains invalid characters.\nUse lowercase letters, numbers, hyphens, or underscores."@,
        CommandError::CoreNotFound(p) => "sweech-core not found at '"@ + p@
            + "'.\nMake sure the path points to the sweech workspace root\n(the directory containing sweech-core/ and sweech-axum/)."@,
        CommandError::AxumNotFound(p) => "sweech-axum not found at '"@ + p@ + "'."@,
        CommandError::ProjectDirExists(d) => "Directory '"@ + d@
            + "' already exists. Remove it or choose a different name."@,
        CommandError::AppletDirExists(d) => "Directory '"@ + d@ + "' already exists."@,
        CommandError::AppletDirNotFound(n) => "Applet directory '"@ + n@ + ".applet' not found.\nRun `sweech add applet "@
            + n@ + "` first."@,
        CommandError::RouteFileExists(f) => "Route file '"@ + f@ + "' already exists."@,
    }
}

impl CommandError {
    /// The text shown for the error.
    pub fn message(&self) -> (r: String)
        ensures
            r@ == command_error_text(*self),
    {
        match self {
            CommandError::InvalidAppletName(n) => {
                let mut s = cat("Applet name '", n.as_str());
                s.append("' contains invalid characters.\nUse lowercase letters, numbers, hyphens, or underscores.");
                s
            },
            CommandError::AppletAlreadyDeclared(n) => {
                let mut s = cat("Applet '", n.as_str());
                s.append("' is already declared in sweech.manifest.toml.");
                s
            },
            CommandError::UnknownAuth(v) => {
                let mut s = cat("Unknown auth value '", v.as_str());
                s.append("'. Use: required, public, optional.");
                s
            },
            CommandError::HandlerPathFormat => owned(
                "Path must be in format <applet>/<route-path>.\nExample: sweech add handler inventory/items",
            ),
            CommandError::InvalidProjectName(n) => {
                let mut s = cat("Project name '", n.as_str());
                s.append("' contains invalid characters.\nUse lowercase letters, numbers, hyphens, or underscores.");
                s
            },
            CommandError::CoreNotFound(p) => {
                let mut s = cat("sweech-core not found at '", p.as_str());
                s.append("'.\nMake sure the path points to the sweech workspace root\n(the directory containing sweech-core/ and sweech-axum/).");
                s
            },
            CommandError::AxumNotFound(p) => {
                let mut s = cat("sweech-axum not found at '", p.as_str());
                s.append("'.");
                s
            },
            CommandError::ProjectDirExists(d) => {
                let mut s = cat("Directory '", d.as_str());
                s.append("' already exists. Remove it or choose a different name.");
                s
            },
            CommandError::AppletDirExists(d) => {
                let mut s = cat("Directory '", d.as_str());
                s.append("' already exists.");
                s
            },
            CommandError::AppletDirNotFound(n) => {
                let mut s = cat("Applet directory '", n.as_str());
                s.append(".applet' not found.\nRun `sweech add applet ");
                s.append(n.as_str());
                s.append("` first.");
                s
            },
            CommandError::RouteFileExists(f) => {
                let mut s = cat("Route file '", f.as_str());
                s.append("' already exists.");
                s
            },
        }
    }
}

/// The auth setting a command-line value asks for: none or "required" is
/// `Required`, "public" and "optional" their settings, anything else unknown.
pub open spec fn auth_from_word(s: Option<Seq<char>>) -> Option<AuthSetting> {
    match s {
        None => Some(AuthSetting::Required),
        Some(w) => if w == "required"@ {
            Some(AuthSetting::Required)
        } else if w == "public"@ {
            Some(AuthSetting::Public)
        } else if w == "optional"@ {
            Some(AuthSetting::Optional)
        } else {
            None
        },
    }
}

/// The characters of an optional string slice.
pub open spec fn opt_view(s: Option<&str>) -> Option<Seq<char>> {
    match s {
        Some(v) => Some(v@),
        None => None,
    }
}

/// Reads the `--auth` value of `add applet` and `add handler`.
pub fn parse_auth(s: Option<&str>) -> (r: Result<AuthSetting, CommandError>)
    ensures
        match auth_from_word(opt_view(s)) {
            Some(a) => r == Ok::<AuthSetting, CommandError>(a),
            None => r matches Err(CommandError::UnknownAuth(v)) && v@ == s->0@,
        },
{
    match s {
        None => Ok(AuthSetting::Required),
        Some(w) => {
            if str_eq(w, "required") {
                Ok(AuthSetting::Required)
            } else if str_eq(w, "public") {
                Ok(AuthSetting::Public)
            } else if str_eq(w, "optional") {
                Ok(AuthSetting::Optional)
            } else {
                Err(CommandError::UnknownAuth(owned(w)))
            }
        },
    }
}

/// A character allowed in applet and project names.
pub open spec fn name_char(c: char) -> bool {
    alphanumeric(c) || c == '-' || c == '_'
}

/// A name made only of letters, digits (as `char::is_alphanumeric` sees
/// them), `-` and `_`.
pub open spec fn valid_name(name: Seq<char>) -> bool {
    forall|i: int| 0 <= i < name.len() ==> name_char(#[trigger] name[i])
}

/// Whether `name` may name an applet or a project.
pub fn is_valid_name(name: &str) -> (r: bool)
    ensures
        r == valid_name(name@),
{
    let n = name.unicode_len();
    let mut i: usize = 0;
    while i < n
        invariant
            n == name@.len(),
            i <= n,
            forall|j: int| 0 <= j < i ==> name_char(#[trigger] name@[j]),
        decreases n - i,
    {
        let c = name.get_char(i);
        if !(is_alphanumeric(c) || c == '-' || c == '_') {
            assert(!name_char(name@[i as int]));
            return false;
        }
        i = i + 1;
    }
    true
}

/// The names of the applets a manifest declares.
pub open spec fn declared_names(m: Manifest) -> Seq<Seq<char>> {
    m.applets@.map_values(|a: AppletManifest| a.name@)
}

/// Whether the manifest declares an applet called `name`.
pub fn declares_applet(manifest: &Manifest, name: &str) -> (r: bool)
    ensures
        r == declared_names(*manifest).contains(name@),
{
    let ghost names = declared_names(*manifest);
    let mut i: usize = 0;
    while i < manifest.applets.len()
        invariant
            i <= manifest.applets@.len(),
            names == declared_names(*manifest),
            forall|j: int| 0 <= j < i ==> names[j] != name@,
        decreases manifest.applets@.len() - i,
    {
        if str_eq(manifest.applets[i].name.as_str(), name) {
            assert(names[i as int] == name@);
            return true;
        }
        i = i + 1;
    }
    false
}

/// The folder of the applet called `name`.
pub open spec fn applet_folder(name: Seq<char>) -> Seq<char> {
    name + ".applet"@
}

/// Checks `add applet <name> [--auth <auth>]` against the manifest and
/// gives the entry to append: a name with other characters than letters,
/// digits, `-`, `_` is refused first, then a name the manifest already
/// declares, then an unknown auth value. The entry has the name, the folder
/// `<name>.applet`, the auth setting, no guards, not stateful, no runtime.
pub fn plan_add_applet(name: &str, auth: Option<&str>, manifest: &Manifest) -> (r: Result<AppletManifest, CommandError>)
    ensures
        !valid_name(name@) ==> (r matches Err(CommandError::InvalidAppletName(n)) && n@ == name@),
        valid_name(name@) && declared_names(*manifest).contains(name@) ==> (r matches Err(
            CommandError::AppletAlreadyDeclared(n),
        ) && n@ == name@),
        valid_name(name@) && !declared_names(*manifest).contains(name@) ==> match auth_from_word(opt_view(auth)) {
            Some(a) => r matches Ok(entry) && entry.name@ == name@ && entry.path@ == applet_folder(name@)
                && entry.auth == a && entry.guards@.len() == 0 && !entry.stateful && entry.runtime is None,
            None => r matches Err(CommandError::UnknownAuth(v)) && v@ == auth->0@,
        },
{
    if !is_valid_name(name) {
        return Err(CommandError::InvalidAppletName(owned(name)));
    }
    if declares_applet(manifest, name) {
        return Err(CommandError::AppletAlreadyDeclared(owned(name)));
    }
    let auth_setting = parse_auth(auth)?;
    Ok(AppletManifest {
        name: owned(name),
        path: cat(name, ".applet"),
        auth: auth_setting,
        guards: Vec::new(),
        stateful: false,
        runtime: None,
    })
}

/// The folder `add applet <name>` creates in the project at `root`.
pub fn applet_dir_path(root: &str, name: &str) -> (r: String)
    ensures
        r@ == joined(root@, applet_folder(name@)),
{
    let folder = cat(name, ".applet");
    child_path(root, folder.as_str())
}

/// `add applet` refuses an applet folder `dir` that `exists` already.
pub fn check_applet_dir(dir: &str, exists: bool) -> (r: Result<(), CommandError>)
    ensures
        exists ==> (r matches Err(CommandError::AppletDirExists(d)) && d@ == dir@),
        !exists ==> r is Ok,
{
    if exists {
        Err(CommandError::AppletDirExists(owned(dir)))
    } else {
        Ok(())
    }
}

/// `init` refuses a project folder `name` that `exists` already.
pub fn check_project_dir(name: &str, exists: bool) -> (r: Result<(), CommandError>)
    ensures
        exists ==> (r matches Err(CommandError::ProjectDirExists(d)) && d@ == name@),
        !exists ==> r is Ok,
{
    if exists {
        Err(CommandError::ProjectDirExists(owned(name)))
    } else {
        Ok(())
    }
}

/// What `add handler` is to create.
#[derive(Debug)]
pub struct HandlerPlan {
    /// The applet, from the part before the first `/`.
    pub applet_name: String,
    /// The folders under the applet, from the part after the first `/`.
    pub route_subpath: String,
    /// `<method in lower case>_<last segment without brackets>`.
    pub handler_name: String,
    /// The method, GET unless one is given.
    pub method: String,
    /// The URL the handler answers, for display.
    pub url: String,
    pub auth: AuthSetting,
}

/// The last `/`-separated piece of a route path.
pub open spec fn last_segment(route: Seq<char>) -> Seq<char> {
    split_char(route, '/').last()
}

/// The last segment without brackets or a leading `...`, as the handler
/// name uses it.
pub open spec fn clean_segment(seg: Seq<char>) -> Seq<char> {
    trim_start_seq(trim_end_char(trim_start_char(seg, '['), ']'), "..."@)
}

/// The URL of a handler: "/", the applet, "/", and the route's segments
/// converted as folder names are.
pub open spec fn handler_url(applet: Seq<char>, route: Seq<char>) -> Seq<char> {
    "/"@ + applet + "/"@ + join(split_char(route, '/').map_values(|s: Seq<char>| segment_of(s)), "/"@)
}

/// The pieces of `s` between the `/`s, as `str::split('/')` gives them.
fn split_slashes(s: &str) -> (r: Vec<String>)
    ensures
        views(r@) == split_char(s@, '/'),
{
    let n = s.unicode_len();
    let mut pieces: Vec<String> = Vec::new();
    let mut start: usize = 0;
    let mut i: usize = 0;
    assert(s@.take(0) =~= Seq::<char>::empty());
    assert(s@.subrange(0, 0) =~= Seq::<char>::empty());
    while i < n
        invariant
            n == s@.len(),
            start <= i <= n,
            views(pieces@) == split_char(s@.take(i as int), '/').drop_last(),
            split_char(s@.take(i as int), '/').len() > 0,
            split_char(s@.take(i as int), '/').last() == s@.subrange(start as int, i as int),
        decreases n - i,
    {
        let ghost prev = split_char(s@.take(i as int), '/');
        assert(s@.take(i + 1).drop_last() =~= s@.take(i as int));
        assert(s@.take(i + 1).last() == s@[i as int]);
        if s.get_char(i) == '/' {
            let piece = slice(s, start, i);
            let ghost before = pieces@;
            pieces.push(piece);
            proof {
                assert(split_char(s@.take(i + 1), '/') == prev.push(Seq::<char>::empty()));
                assert(split_char(s@.take(i + 1), '/').drop_last() =~= prev);
                assert(prev =~= prev.drop_last().push(prev.last()));
                assert(views(pieces@) =~= views(before).push(piece@));
            }
            start = i + 1;
            i = i + 1;
            assert(s@.subrange(start as int, i as int) =~= Seq::<char>::empty());
        } else {
            proof {
                let next = split_char(s@.take(i + 1), '/');
                assert(next == prev.update(prev.len() - 1, prev.last().push(s@[i as int])));
                assert(next.drop_last() =~= prev.drop_last());
                assert(s@.subrange(start as int, i + 1) =~= s@.subrange(start as int, i as int).push(s@[i as int]));
            }
            i = i + 1;
        }
    }
    let last = slice(s, start, n);
    let ghost before = pieces@;
    pieces.push(last);
    proof {
        let all = split_char(s@, '/');
        assert(s@.take(n as int) =~= s@);
        assert(all =~= all.drop_last().push(all.last()));
        assert(views(pieces@) =~= views(before).push(last@));
    }
    pieces
}

/// Checks `add handler <applet>/<route> [--method <m>] [--auth <a>]` and
/// works out what to create: the applet is the part before the first `/`
/// (a path without `/` is refused), the route the part after it; the
/// handler's name is the method in lower case (GET when none is given),
/// `_`, and the last route segment without `[`, `]` and a leading `...`;
/// an unknown auth value is refused.
pub fn plan_add_handler(path: &str, method: Option<&str>, auth: Option<&str>) -> (r: Result<HandlerPlan, CommandError>)
    ensures
        find_char(path@, '/') is None ==> r matches Err(CommandError::HandlerPathFormat),
        find_char(path@, '/') matches Some(k) ==> {
            let applet = path@.take(k as int);
            let route = path@.skip(k as int + 1);
            let m: Seq<char> = match method { Some(v) => v@, None => "GET"@ };
            match auth_from_word(opt_view(auth)) {
                Some(a) => r matches Ok(plan) && plan.applet_name@ == applet && plan.route_subpath@ == route
                    && plan.method@ == m
                    && plan.handler_name@ == text_lower(m) + "_"@ + clean_segment(last_segment(route))
                    && plan.url@ == handler_url(applet, route) && plan.auth == a,
                None => r matches Err(CommandError::UnknownAuth(v)) && v@ == auth->0@,
            }
        },
{
    let n = path.unicode_len();
    let mut k: usize = 0;
    while k < n && path.get_char(k) != '/'
        invariant
            n == path@.len(),
            k <= n,
            forall|j: int| 0 <= j < k ==> path@[j] != '/',
        decreases n - k,
    {
        k = k + 1;
    }
    proof {
        lemma_find_char(path@, '/');
    }
    if k == n {
        proof {
            if find_char(path@, '/') is Some {
                let j = find_char(path@, '/')->0;
                assert(path@[j as int] == '/');
            }
        }
        return Err(CommandError::HandlerPathFormat);
    }
    proof {
        match find_char(path@, '/') {
            Some(j) => {
                if j < k {
                    assert(path@[j as int] == '/');
                }
                if k < j {
                    assert(path@[k as int] == '/');
                }
            },
            None => {
                assert(path@[k as int] == '/');
            },
        }
    }
    let applet_name = slice(path, 0, k);
    let route_subpath = slice(path, k + 1, n);
    assert(path@.subrange(0, k as int) =~= path@.take(k as int));
    assert(path@.subrange(k + 1, n as int) =~= path@.skip(k as int + 1));

    let segments = split_slashes(route_subpath.as_str());
    proof {
        crate::text::lemma_split_char_nonempty(route_subpath@, '/');
    }
    let last = segments[segments.len() - 1].as_str();
    let clean = trim_start_matches_str(
        trim_end_matches_char(trim_start_matches_char(last, '[').as_str(), ']').as_str(),
        "...",
    );
    let method_name = match method {
        Some(m) => owned(m),
        None => owned("GET"),
    };
    let lower = to_lowercase(method_name.as_str());
    let mut handler_name = cat(lower.as_str(), "_");
    handler_name.append(clean.as_str());

    let auth_setting = parse_auth(auth)?;

    let mut url_segments: Vec<String> = Vec::new();
    let mut i: usize = 0;
    while i < segments.len()
        invariant
            i <= segments@.len(),
            url_segments@.len() == i,
            forall|j: int| 0 <= j < i ==> (#[trigger] url_segments@[j])@ == segment_of(segments@[j]@),
        decreases segments@.len() - i,
    {
        url_segments.push(convert_segment(segments[i].as_str()));
        i = i + 1;
    }
    proof {
        assert(views(url_segments@) =~= split_char(route_subpath@, '/').map_values(|s: Seq<char>| segment_of(s)));
    }
    let joined = join_strings(url_segments.as_slice(), "/");
    let mut url = cat("/", applet_name.as_str());
    url.append("/");
    url.append(joined.as_str());

    Ok(HandlerPlan {
        applet_name,
        route_subpath,
        handler_name,
        method: method_name,
        url,
        auth: auth_setting,
    })
}

/// The project name `init` uses: the given one, or "my-sweech-app".
pub open spec fn project_name_or_default(name: Option<String>) -> Seq<char> {
    match name {
        Some(n) => n@,
        None => "my-sweech-app"@,
    }
}

/// Checks the name for `init`: the default when none is given; a name with
/// other characters than letters, digits, `-`, `_` is refused.
pub fn plan_project_name(name: Option<String>) -> (r: Result<String, CommandError>)
    ensures
        valid_name(project_name_or_default(name)) ==> (r matches Ok(n) && n@ == project_name_or_default(name)),
        !valid_name(project_name_or_default(name)) ==> (r matches Err(CommandError::InvalidProjectName(n))
            && n@ == project_name_or_default(name)),
{
    let project_name = match name {
        Some(n) => n,
        None => owned("my-sweech-app"),
    };
    if !is_valid_name(project_name.as_str()) {
        return Err(CommandError::InvalidProjectName(project_name));
    }
    Ok(project_name)
}

/// The applet folder and the `route.rs` file that `add handler` works on
/// for `plan` in the project at `root`.
pub fn handler_paths(root: &str, plan: &HandlerPlan) -> (r: (String, String))
    ensures
        r.0@ == joined(root@, applet_folder(plan.applet_name@)),
        r.1@ == joined(joined(r.0@, plan.route_subpath@), "route.rs"@),
{
    let applet_dir = applet_dir_path(root, plan.applet_name.as_str());
    let handler_dir = child_path(applet_dir.as_str(), plan.route_subpath.as_str());
    let route_file = child_path(handler_dir.as_str(), "route.rs");
    (applet_dir, route_file)
}

/// `add handler` refuses a plan whose applet folder is missing (naming the
/// applet) and then one whose `route_file` exists already.
pub fn check_handler_target(plan: &HandlerPlan, applet_dir_exists: bool, route_file: &str, route_file_exists: bool) -> (r: Result<(), CommandError>)
    ensures
        !applet_dir_exists ==> (r matches Err(CommandError::AppletDirNotFound(n)) && n@ == plan.applet_name@),
        applet_dir_exists && route_file_exists ==> (r matches Err(CommandError::RouteFileExists(f)) && f@ == route_file@),
        applet_dir_exists && !route_file_exists ==> r is Ok,
{
    if !applet_dir_exists {
        return Err(CommandError::AppletDirNotFound(owned(plan.applet_name.as_str())));
    }
    if route_file_exists {
        return Err(CommandError::RouteFileExists(owned(route_file)));
    }
    Ok(())
}

/// The note `init` prints for a path source shown as `display`.
pub open spec fn path_note(display: Seq<char>) -> Seq<char> {
    "Source: path ("@ + display + ")"@
}

/// The `sweech-core` and `sweech-axum` lines and the note for a framework
/// workspace at `base` shown as `display`, given whether its
/// `sweech-core/Cargo.toml` and then its `sweech-axum/Cargo.toml` were found
/// and the folders (`core_abs`, `axum_abs`) the two crates' folders resolve
/// to: a missing `sweech-core` is refused first, naming its folder, then a
/// missing `sweech-axum`; otherwise each line points at its crate's folder.
pub fn path_deps_from(
    base: &str,
    core_found: bool,
    axum_found: bool,
    core_abs: &str,
    axum_abs: &str,
    display: &str,
) -> (r: Result<(String, String, String), CommandError>)
    ensures
        !core_found ==> (r matches Err(CommandError::CoreNotFound(p)) && p@ == crate_dir(base@, "sweech-core"@)),
        core_found && !axum_found ==> (r matches Err(CommandError::AxumNotFound(p))
            && p@ == crate_dir(base@, "sweech-axum"@)),
        core_found && axum_found ==> (r matches Ok(t) && t.0@ == path_dep(core_abs@) && t.1@ == path_dep(axum_abs@)
            && t.2@ == path_note(display@)),
{
    if !core_found {
        return Err(CommandError::CoreNotFound(child_path(base, "sweech-core")));
    }
    if !axum_found {
        return Err(CommandError::AxumNotFound(child_path(base, "sweech-axum")));
    }
    let (core_dep, axum_dep) = path_source_deps(core_abs, axum_abs);
    let mut note = cat("Source: path (", display);
    note.append(")");
    Ok((core_dep, axum_dep, note))
}

/// Checks that the framework workspace at `base` holds both crates (their
/// `Cargo.toml` files, as `framework_manifests` gives them) and gives their
/// path dependencies (each crate's folder, made canonical where that
/// succeeds) and the note naming `display`, as `path_deps_from` decides. A
/// missing `sweech-core/Cargo.toml` is refused first, then a missing
/// `sweech-axum/Cargo.toml`; what is on disk decides between these.
pub fn build_path_deps(base: &str, display: &str) -> (r: Result<(String, String, String), CommandError>)
    ensures
        r matches Ok(t) ==> is_path_dep_pair((t.0, t.1)) && t.2@ == path_note(display@),
        r matches Err(e) ==> (e matches CommandError::CoreNotFound(p) && p@ == crate_dir(base@, "sweech-core"@))
            || (e matches CommandError::AxumNotFound(p) && p@ == crate_dir(base@, "sweech-axum"@)),
{
    let (core_manifest, axum_manifest) = framework_manifests(base);
    let core_found = path_exists(core_manifest.as_str());
    let axum_found = core_found && path_exists(axum_manifest.as_str());
    let (core_dir, axum_dir) = framework_dirs(base);
    let (core_abs, axum_abs) = if axum_found {
        (canonical_or_same(core_dir.as_str()), canonical_or_same(axum_dir.as_str()))
    } else {
        (core_dir, axum_dir)
    };
    path_deps_from(base, core_found, axum_found, core_abs.as_str(), axum_abs.as_str(), display)
}

/// The folders where `init` looks for the framework workspace, for the
/// running binary at `exe`: the folder holding it and up to three folders
/// above that, nearest first.
pub open spec fn workspace_candidates(exe: Seq<char>) -> Seq<Seq<char>> {
    folders_upward(parent_of(exe), 4)
}

/// The characters of an optional string.
pub open spec fn opt_text(s: Option<String>) -> Option<Seq<char>> {
    match s {
        Some(v) => Some(v@),
        None => None,
    }
}

/// The first folder in `checked` marked as holding both crates.
pub open spec fn first_marked(checked: Seq<(String, bool)>) -> Option<Seq<char>>
    decreases checked.len(),
{
    if checked.len() == 0 {
        None
    } else if checked[0].1 {
        Some(checked[0].0@)
    } else {
        first_marked(checked.drop_first())
    }
}

/// The candidate folders for the binary at `exe`, as
/// `workspace_candidates` gives them.
pub fn list_workspace_candidates(exe: &str) -> (r: Vec<String>)
    ensures
        views(r@) == workspace_candidates(exe@),
{
    let mut out: Vec<String> = Vec::new();
    let mut cur = parent_dir(exe);
    let mut left: u64 = 4;
    assert(views(out@) =~= Seq::<Seq<char>>::empty());
    assert(views(out@) + folders_upward(opt_text(cur), left as nat) =~= workspace_candidates(exe@));
    while left > 0 && cur.is_some()
        invariant
            left <= 4,
            views(out@) + folders_upward(opt_text(cur), left as nat) == workspace_candidates(exe@),
        decreases left,
    {
        let d = cur.unwrap();
        let next = parent_dir(d.as_str());
        let ghost before = views(out@);
        proof {
            assert(folders_upward(Some(d@), left as nat) == seq![d@] + folders_upward(opt_text(next), (left - 1) as nat));
        }
        out.push(d);
        assert(views(out@) =~= before.push(d@));
        assert(views(out@) + folders_upward(opt_text(next), (left - 1) as nat)
            =~= before + (seq![d@] + folders_upward(opt_text(next), (left - 1) as nat)));
        cur = next;
        left = left - 1;
    }
    assert(folders_upward(opt_text(cur), left as nat) =~= Seq::<Seq<char>>::empty());
    assert(views(out@) + Seq::<Seq<char>>::empty() =~= views(out@));
    out
}

/// Each candidate folder for the binary at `exe`, nearest first, with the
/// `sweech-core/Cargo.toml` and `sweech-axum/Cargo.toml` files that mark it
/// as the framework workspace.
pub fn workspace_probes(exe: &str) -> (r: Vec<(String, String, String)>)
    ensures
        r@.len() == workspace_candidates(exe@).len(),
        forall|i: int| 0 <= i < r@.len() ==> {
            let d = #[trigger] workspace_candidates(exe@)[i];
            &&& r@[i].0@ == d
            &&& r@[i].1@ == crate_manifest(d, "sweech-core"@)
            &&& r@[i].2@ == crate_manifest(d, "sweech-axum"@)
        },
{
    let candidates = list_workspace_candidates(exe);
    let ghost cs = workspace_candidates(exe@);
    let mut probes: Vec<(String, String, String)> = Vec::new();
    let mut i: usize = 0;
    while i < candidates.len()
        invariant
            i <= candidates@.len(),
            cs == workspace_candidates(exe@),
            views(candidates@) == cs,
            probes@.len() == i,
            forall|j: int| 0 <= j < i ==> {
                let d = #[trigger] cs[j];
                &&& probes@[j].0@ == d
                &&& probes@[j].1@ == crate_manifest(d, "sweech-core"@)
                &&& probes@[j].2@ == crate_manifest(d, "sweech-axum"@)
            },
        decreases candidates@.len() - i,
    {
        let dir = candidates[i].as_str();
        assert(cs[i as int] == dir@);
        let (core_manifest, axum_manifest) = framework_manifests(dir);
        probes.push((owned(dir), core_manifest, axum_manifest));
        i = i + 1;
    }
    probes
}

/// Picks the workspace from the candidate folders, each marked with whether
/// it holds both `sweech-core/Cargo.toml` and `sweech-axum/Cargo.toml`:
/// the first marked one, or none.
pub fn first_workspace(checked: &Vec<(String, bool)>) -> (r: Option<String>)
    ensures
        opt_text(r) == first_marked(checked@),
{
    let mut i: usize = 0;
    assert(checked@.skip(0) =~= checked@);
    while i < checked.len()
        invariant
            i <= checked@.len(),
            first_marked(checked@) == first_marked(checked@.skip(i as int)),
        decreases checked@.len() - i,
    {
        assert(checked@.skip(i as int)[0] == checked@[i as int]);
        if checked[i].1 {
            return Some(owned(checked[i].0.as_str()));
        }
        assert(checked@.skip(i as int).drop_first() =~= checked@.skip(i + 1));
        i = i + 1;
    }
    None
}

/// Looks for the framework workspace next to the running binary at `exe`:
/// among `workspace_candidates`, nearest first, the first folder with both
/// `sweech-core/Cargo.toml` and `sweech-axum/Cargo.toml` on disk. Which
/// folders hold them is up to the disk; a found folder is always one of the
/// candidates.
pub fn auto_detect_sweech_root(exe: &str) -> (r: Option<String>)
    ensures
        r matches Some(d) ==> workspace_candidates(exe@).contains(d@),
        parent_of(exe@) is None ==> r is None,
{
    let probes = workspace_probes(exe);
    let ghost cs = workspace_candidates(exe@);
    let mut checked: Vec<(String, bool)> = Vec::new();
    let mut i: usize = 0;
    while i < probes.len()
        invariant
            i <= probes@.len(),
            cs == workspace_candidates(exe@),
            probes@.len() == cs.len(),
            forall|j: int| 0 <= j < probes@.len() ==> (#[trigger] probes@[j]).0@ == cs[j],
            checked@.len() == i,
            forall|j: int| 0 <= j < i ==> (#[trigger] checked@[j]).0@ == cs[j],
        decreases probes@.len() - i,
    {
        let found = path_exists(probes[i].1.as_str()) && path_exists(probes[i].2.as_str());
        checked.push((owned(probes[i].0.as_str()), found));
        i = i + 1;
    }
    let r = first_workspace(&checked);
    proof {
        lemma_first_marked_is_listed(checked@);
        if r is Some {
            let k = choose|k: int| 0 <= k < checked@.len() && checked@[k].0@ == r->0@;
            assert(cs[k] == r->0@);
        }
        if parent_of(exe@) is None {
            assert(cs =~= Seq::<Seq<char>>::empty());
        }
    }
    r
}

/// A marked folder is one of those listed.
pub proof fn lemma_first_marked_is_listed(checked: Seq<(String, bool)>)
    ensures
        first_marked(checked) matches Some(d) ==> exists|k: int| 0 <= k < checked.len() && checked[k].0@ == d,
        checked.len() == 0 ==> first_marked(checked) is None,
    decreases checked.len(),
{
    if checked.len() > 0 && !checked[0].1 {
        lemma_first_marked_is_listed(checked.drop_first());
        if first_marked(checked.drop_first()) is Some {
            let d = first_marked(checked.drop_first())->0;
            let k = choose|k: int| 0 <= k < checked.drop_first().len() && checked.drop_first()[k].0@ == d;
            assert(checked[k + 1].0@ == d);
        }
    }
}

/// A configured source gives dependency lines.
pub open spec fn source_gives_deps(s: SourceConfig) -> bool {
    match s.kind {
        SourceType::Git => s.url is Some,
        SourceType::Path => s.path is Some,
        SourceType::Crates => true,
        SourceType::Unset => false,
    }
}

/// The note `init` prints for a configured source.
pub open spec fn source_note(s: SourceConfig) -> Seq<char> {
    match s.kind {
        SourceType::Git => "Source: git ("@ + or_text(s.url, Seq::empty()) + ")"@,
        SourceType::Path => "Source: path ("@ + or_text(s.path, Seq::empty()) + ")"@,
        SourceType::Crates => "Source: crates.io ("@ + or_text(s.version, "*"@) + ")"@,
        SourceType::Unset => Seq::empty(),
    }
}

/// The dependency line for `sweech-core` when no source is known.
pub open spec fn fallback_core_dep() -> Seq<char> {
    "{ path = \"../sweech/sweech-core\" }  # TODO: run `sweech config set source-url <url>`"@
}

/// The dependency line for `sweech-axum` when no source is known.
pub open spec fn fallback_axum_dep() -> Seq<char> {
    "{ path = \"../sweech/sweech-axum\" }  # TODO: run `sweech config set source-url <url>`"@
}

/// The note `init` prints when no source is known.
pub open spec fn fallback_note() -> Seq<char> {
    "No sweech source configured.\n  Run: sweech config set source-url https://github.com/devWithKD/sweech\n  or: sweech config set source-path /path/to/sweech"@
}

/// The lines and note used when no source is known.
pub open spec fn is_fallback(t: (String, String, String)) -> bool {
    t.0@ == fallback_core_dep() && t.1@ == fallback_axum_dep() && t.2@ == fallback_note()
}

/// The lines a configured source gives, with its note.
pub open spec fn from_source(t: (String, String, String), s: SourceConfig) -> bool {
    &&& t.2@ == source_note(s)
    &&& match s.kind {
        SourceType::Git => t.0@ == git_dep(s.url->0@, "sweech-core"@) && t.1@ == git_dep(s.url->0@, "sweech-axum"@),
        SourceType::Crates => t.0@ == version_dep(version_or_any(s.version)) && t.1@ == version_dep(version_or_any(s.version)),
        _ => is_path_dep_pair((t.0, t.1)),
    }
}

/// Decides the `sweech-core` and `sweech-axum` dependency lines for `init`,
/// and the note to print, in this order: an explicit `--path` (whose
/// workspace must hold both crates); the configured source; the workspace
/// found next to the running binary (`detected`), when it holds both
/// crates; otherwise placeholder lines and a note on how to set a source.
pub fn resolve_sweech_deps(explicit_path: Option<&str>, config: &SweechConfig, detected: Option<&str>) -> (r: Result<(String, String, String), CommandError>)
    ensures
        explicit_path matches Some(p) ==> match r {
            Ok(t) => is_path_dep_pair((t.0, t.1)) && t.2@ == path_note(p@),
            Err(e) => (e matches CommandError::CoreNotFound(q) && q@ == crate_dir(p@, "sweech-core"@))
                || (e matches CommandError::AxumNotFound(q) && q@ == crate_dir(p@, "sweech-axum"@)),
        },
        explicit_path is None ==> r is Ok,
        explicit_path is None && source_gives_deps(config.source) ==> (r matches Ok(t) && from_source(t, config.source)),
        explicit_path is None && !source_gives_deps(config.source) && detected is None ==> (r matches Ok(t) && is_fallback(t)),
        explicit_path is None && !source_gives_deps(config.source) ==> (detected matches Some(d) ==> (r matches Ok(t)
            && (is_fallback(t) || (is_path_dep_pair((t.0, t.1)) && t.2@ == path_note(d@))))),
{
    if let Some(p) = explicit_path {
        return build_path_deps(p, p);
    }
    if config.source.kind != SourceType::Unset {
        if let Some((core, axum)) = resolve_dep_strings(&config.source) {
            let note = match config.source.kind {
                SourceType::Git => {
                    let mut n = owned("Source: git (");
                    match &config.source.url {
                        Some(u) => n.append(u.as_str()),
                        None => {},
                    }
                    n.append(")");
                    n
                },
                SourceType::Path => {
                    let mut n = owned("Source: path (");
                    match &config.source.path {
                        Some(u) => n.append(u.as_str()),
                        None => {},
                    }
                    n.append(")");
                    n
                },
                SourceType::Crates => {
                    let mut n = owned("Source: crates.io (");
                    match &config.source.version {
                        Some(u) => n.append(u.as_str()),
                        None => n.append("*"),
                    }
                    n.append(")");
                    n
                },
                SourceType::Unset => String::new(),
            };
            let r = (core, axum, note);
            assert(r.2@ =~= source_note(config.source));
            return Ok(r);
        }
    }
    let found = match detected {
        Some(d) => Some(build_path_deps(d, d)),
        None => None,
    };
    Ok(deps_or_fallback(found))
}

/// The lines and note from the detected workspace when it held both crates
/// (`found` is `Some(Ok(..))`), otherwise the placeholder lines and the note
/// on how to set a source.
pub fn deps_or_fallback(found: Option<Result<(String, String, String), CommandError>>) -> (r: (String, String, String))
    ensures
        found matches Some(Ok(t)) ==> r == t,
        !(found matches Some(Ok(_))) ==> is_fallback(r),
{
    match found {
        Some(Ok(t)) => t,
        _ => {
            let core = owned("{ path = \"../sweech/sweech-core\" }  # TODO: run `sweech config set source-url <url>`");
            let axum = owned("{ path = \"../sweech/sweech-axum\" }  # TODO: run `sweech config set source-url <url>`");
            let note = owned("No sweech source configured.\n  Run: sweech config set source-url https://github.com/devWithKD/sweech\n  or: sweech config set source-path /path/to/sweech");
            (core, axum, note)
        },
    }
}

/// The command that builds a frontend: its own, or its framework's default.
pub open spec fn build_command_of(f: FrontendManifest) -> Seq<char> {
    or_text(f.build_command, f.framework.build_command())
}

/// The command that builds `f` for production.
pub fn frontend_build_command(f: &FrontendManifest) -> (r: String)
    ensures
        r@ == build_command_of(*f),
{
    match &f.build_command {
        Some(c) => owned(c.as_str()),
        None => owned(f.framework.default_build_command()),
    }
}

/// A web frontend served with the given mode.
pub open spec fn served_as(f: FrontendManifest, mode: ServeMode) -> bool {
    !f.framework.mobile() && f.serve == Some(mode)
}

fn is_served_as(f: &FrontendManifest, mode: ServeMode) -> (r: bool)
    ensures
        r == served_as(*f, mode),
{
    if f.framework.is_mobile() {
        return false;
    }
    match f.serve {
        Some(m) => m == mode,
        None => false,
    }
}

/// The first web frontend that is embedded in the backend, if any.
pub fn embedded_frontend(manifest: &Manifest) -> (r: Option<usize>)
    ensures
        match r {
            Some(i) => i < manifest.frontends@.len() && served_as(manifest.frontends@[i as int], ServeMode::Embedded)
                && forall|j: int| 0 <= j < i ==> !served_as(#[trigger] manifest.frontends@[j], ServeMode::Embedded),
            None => forall|j: int| 0 <= j < manifest.frontends@.len() ==> !served_as(#[trigger] manifest.frontends@[j], ServeMode::Embedded),
        },
{
    let mut i: usize = 0;
    while i < manifest.frontends.len()
        invariant
            i <= manifest.frontends@.len(),
            forall|j: int| 0 <= j < i ==> !served_as(#[trigger] manifest.frontends@[j], ServeMode::Embedded),
        decreases manifest.frontends@.len() - i,
    {
        if is_served_as(&manifest.frontends[i], ServeMode::Embedded) {
            return Some(i);
        }
        i = i + 1;
    }
    None
}

/// The indices of the standalone web frontends, in order.
pub open spec fn standalone_indices(fs: Seq<FrontendManifest>) -> Seq<usize>
    decreases fs.len(),
{
    if fs.len() == 0 {
        Seq::empty()
    } else if served_as(fs.last(), ServeMode::Standalone) {
        standalone_indices(fs.drop_last()).push((fs.len() - 1) as usize)
    } else {
        standalone_indices(fs.drop_last())
    }
}

/// The Dockerfile of a standalone frontend at `path` built with `build`.
pub open spec fn standalone_dockerfile_text(path: Seq<char>, build: Seq<char>) -> Seq<char> {
    "# syntax=docker/dockerfile:1\n# Frontend — standalone static server\nFROM node:20-slim AS builder\nWORKDIR /app\nCOPY "@
        + path + "/package*.json ./\nRUN npm ci\nCOPY "@ + path + "/ ./\nRUN "@ + build
        + "\n\nFROM nginx:alpine AS runtime\nCOPY --from=builder /app/out /usr/share/nginx/html\nCOPY --from=builder /app/.next/static /usr/share/nginx/html/_next/static\nEXPOSE 80\nCMD [\"nginx\", \"-g\", \"daemon off;\"]\n"@
}

/// The Dockerfile for a standalone frontend: node builds it, nginx serves
/// the result.
pub fn standalone_frontend_dockerfile(frontend_path: &str, build_command: &str) -> (r: String)
    ensures
        r@ == standalone_dockerfile_text(frontend_path@, build_command@),
{
    let mut s = owned("# syntax=docker/dockerfile:1\n# Frontend — standalone static server\nFROM node:20-slim AS builder\nWORKDIR /app\nCOPY ");
    s.append(frontend_path);
    s.append("/package*.json ./\nRUN npm ci\nCOPY ");
    s.append(frontend_path);
    s.append("/ ./\nRUN ");
    s.append(build_command);
    s.append("\n\nFROM nginx:alpine AS runtime\nCOPY --from=builder /app/out /usr/share/nginx/html\nCOPY --from=builder /app/.next/static /usr/share/nginx/html/_next/static\nEXPOSE 80\nCMD [\"nginx\", \"-g\", \"daemon off;\"]\n");
    s
}

/// One Dockerfile of a standalone frontend: its file name and its text.
#[derive(Debug)]
pub struct FrontendDockerfile {
    pub file_name: String,
    pub content: String,
}

/// The Dockerfile written for a standalone frontend `f`.
pub open spec fn frontend_dockerfile_of(d: FrontendDockerfile, f: FrontendManifest) -> bool {
    d.file_name@ == "Dockerfile."@ + f.name@
        && d.content@ == standalone_dockerfile_text(f.path@, build_command_of(f))
}

/// Each Dockerfile in `out` is the one for the frontend at the matching
/// index in `idx`, an index below `bound`.
pub open spec fn dockerfiles_for(out: Seq<FrontendDockerfile>, fs: Seq<FrontendManifest>, idx: Seq<usize>, bound: int) -> bool {
    &&& out.len() == idx.len()
    &&& forall|k: int| 0 <= k < out.len() ==> 0 <= #[trigger] idx[k] < bound && bound <= fs.len()
        && frontend_dockerfile_of(out[k], fs[idx[k] as int])
}

/// The Dockerfiles of the standalone web frontends, in the order the
/// manifest lists them: `Dockerfile.<name>`, each built with the frontend's
/// build command.
pub fn standalone_dockerfiles(manifest: &Manifest) -> (r: Vec<FrontendDockerfile>)
    ensures
        dockerfiles_for(r@, manifest.frontends@, standalone_indices(manifest.frontends@), manifest.frontends@.len() as int),
{
    let ghost fs = manifest.frontends@;
    let mut out: Vec<FrontendDockerfile> = Vec::new();
    let mut i: usize = 0;
    assert(standalone_indices(fs.take(0)) =~= Seq::<usize>::empty());
    while i < manifest.frontends.len()
        invariant
            i <= fs.len(),
            fs == manifest.frontends@,
            dockerfiles_for(out@, fs, standalone_indices(fs.take(i as int)), i as int),
        decreases fs.len() - i,
    {
        let ghost before = standalone_indices(fs.take(i as int));
        assert(fs.take(i + 1).drop_last() =~= fs.take(i as int));
        assert(fs.take(i + 1).last() == fs[i as int]);
        let f = &manifest.frontends[i];
        let ghost old_out = out@;
        if is_served_as(f, ServeMode::Standalone) {
            let build = frontend_build_command(f);
            let content = standalone_frontend_dockerfile(f.path.as_str(), build.as_str());
            let file_name = cat("Dockerfile.", f.name.as_str());
            let d = FrontendDockerfile { file_name, content };
            assert(frontend_dockerfile_of(d, fs[i as int]));
            out.push(d);
            let ghost after = standalone_indices(fs.take(i + 1));
            assert(after == before.push(i));
            assert forall|k: int| 0 <= k < out@.len() implies 0 <= #[trigger] after[k] < i + 1 && i + 1 <= fs.len()
                && frontend_dockerfile_of(out@[k], fs[after[k] as int]) by {
                if k < old_out.len() {
                    assert(out@[k] == old_out[k]);
                    assert(after[k] == before[k]);
                } else {
                    assert(out@[k] == d);
                }
            }
        } else {
            assert(standalone_indices(fs.take(i + 1)) == before);
        }
        i = i + 1;
    }
    assert(fs.take(fs.len() as int) =~= fs);
    out
}

/// The word the manifest writes for each auth setting ("required",
/// "public", "optional") reads back as that same setting.
pub proof fn law_auth_word_round_trip(a: AuthSetting)
    ensures
        auth_from_word(Some(a.word())) == Some(a),
{
    reveal_strlit("required");
    reveal_strlit("public");
    reveal_strlit("optional");
    assert("required"@[0] != "public"@[0] && "required"@[0] != "optional"@[0] && "public"@[0] != "optional"@[0]);
}

/// Exactly Expo and Ionic are mobile frameworks; Next, Nuxt, Vite and
/// SvelteKit are web frameworks.
pub proof fn law_mobile_frameworks(f: crate::manifest::FrontendFramework)
    ensures
        f.mobile() <==> (f == crate::manifest::FrontendFramework::Expo || f == crate::manifest::FrontendFramework::Ionic),
{
}

/// The standalone indices are exactly the standalone web frontends.
proof fn lemma_standalone_indices(fs: Seq<FrontendManifest>)
    requires
        fs.len() <= usize::MAX,
    ensures
        forall|i: int| 0 <= i < fs.len() ==> (standalone_indices(fs).contains(i as usize)
            <==> served_as(#[trigger] fs[i], ServeMode::Standalone)),
        forall|k: int| 0 <= k < standalone_indices(fs).len() ==> #[trigger] standalone_indices(fs)[k] < fs.len(),
    decreases fs.len(),
{
    if fs.len() > 0 {
        let prev = fs.drop_last();
        lemma_standalone_indices(prev);
        let s = standalone_indices(fs);
        let ps = standalone_indices(prev);
        assert forall|i: int| 0 <= i < fs.len() implies (s.contains(i as usize)
            <==> served_as(#[trigger] fs[i], ServeMode::Standalone)) by {
            if i < fs.len() - 1 {
                assert(prev[i] == fs[i]);
                if served_as(fs.last(), ServeMode::Standalone) {
                    assert(s == ps.push((fs.len() - 1) as usize));
                    if s.contains(i as usize) {
                        let k = choose|k: int| 0 <= k < s.len() && s[k] == i as usize;
                        if k < ps.len() {
                            assert(ps[k] == s[k]);
                        }
                    }
                    if ps.contains(i as usize) {
                        let k = choose|k: int| 0 <= k < ps.len() && ps[k] == i as usize;
                        assert(s[k] == ps[k]);
                    }
                }
            } else {
                assert(fs[i] == fs.last());
                if served_as(fs.last(), ServeMode::Standalone) {
                    assert(s[ps.len() as int] == i as usize);
                } else {
                    if s.contains(i as usize) {
                        let k = choose|k: int| 0 <= k < s.len() && s[k] == i as usize;
                        assert(ps[k] < prev.len());
                    }
                }
            }
        }
    }
}

/// Every web frontend (Next, Nuxt, Vite, SvelteKit) served standalone gets
/// a Dockerfile, `Dockerfile.<name>`, among the Dockerfiles `r` that
/// `standalone_dockerfiles` gives for the manifest, and no mobile frontend
/// (Expo, Ionic) is among the frontends they are for.
pub proof fn law_standalone_web_frontends_get_dockerfiles(m: Manifest, r: Seq<FrontendDockerfile>, i: int)
    requires
        0 <= i < m.frontends@.len(),
        dockerfiles_for(r, m.frontends@, standalone_indices(m.frontends@), m.frontends@.len() as int),
    ensures
        m.frontends@[i].serve == Some(ServeMode::Standalone)
            && !(m.frontends@[i].framework == crate::manifest::FrontendFramework::Expo
            || m.frontends@[i].framework == crate::manifest::FrontendFramework::Ionic)
            ==> exists|k: int| 0 <= k < r.len() && standalone_indices(m.frontends@)[k] == i
                && (#[trigger] r[k]).file_name@ == "Dockerfile."@ + m.frontends@[i].name@,
        (m.frontends@[i].framework == crate::manifest::FrontendFramework::Expo
            || m.frontends@[i].framework == crate::manifest::FrontendFramework::Ionic)
            ==> !standalone_indices(m.frontends@).contains(i as usize),
{
    let fs = m.frontends@;
    let idx = standalone_indices(fs);
    assert(fs.len() == m.frontends.len());
    lemma_standalone_indices(fs);
    assert(served_as(fs[i], ServeMode::Standalone) <==> idx.contains(i as usize));
    if idx.contains(i as usize) {
        let k = choose|k: int| 0 <= k < idx.len() && idx[k] == i as usize;
        assert(frontend_dockerfile_of(r[k], fs[idx[k] as int]));
        assert(idx[k] == i);
    }
}

/// The number of findings of one severity.
pub open spec fn count_severity(issues: Seq<crate::validator::IssueView>, severity: crate::validator::Severity) -> nat
    decreases issues.len(),
{
    if issues.len() == 0 {
        0
    } else {
        count_severity(issues.drop_last(), severity) + if issues.last().severity == severity { 1nat } else { 0nat }
    }
}

/// How many of the findings have the given severity, for the summary line
/// of `check`.
pub fn count_issues(issues: &[crate::validator::ValidationIssue], severity: crate::validator::Severity) -> (r: usize)
    ensures
        r == count_severity(crate::validator::issue_views(issues@), severity),
{
    let ghost vs = crate::validator::issue_views(issues@);
    let mut n: usize = 0;
    let mut i: usize = 0;
    while i < issues.len()
        invariant
            i <= issues@.len(),
            vs == crate::validator::issue_views(issues@),
            n == count_severity(vs.take(i as int), severity),
            n <= i,
        decreases issues@.len() - i,
    {
        assert(vs.take(i + 1).drop_last() =~= vs.take(i as int));
        if issues[i].severity == severity {
            n = n + 1;
        }
        i = i + 1;
    }
    assert(vs.take(issues@.len() as int) =~= vs);
    n
}

} // verus!
