use vstd::prelude::*;
use crate::text::{cat, owned, ends_with, is_suffix, join, views, join_strings};

verus! {

/// The root of a project manifest (`sweech.manifest.toml`).
#[derive(Debug)]
pub struct Manifest {
    pub project: ProjectConfig,
    pub build: BuildConfig,
    /// One entry per applet directory (`[[applet]]`).
    pub applets: Vec<AppletManifest>,
    /// One entry per frontend (`[[frontend]]`).
    pub frontends: Vec<FrontendManifest>,
    /// Shared packages (`[[package]]`).
    pub packages: Vec<PackageManifest>,
    pub http: HttpConfig,
    pub plugins: PluginsConfig,
    /// Named tasks (`[tasks.<name>]`), in the order they are listed.
    pub tasks: Vec<(String, TaskConfig)>,
    pub env: EnvConfig,
}

/// `[project]`.
#[derive(Debug)]
pub struct ProjectConfig {
    pub name: String,
    pub version: String,
    pub description: Option<String>,
}

/// The version a project has when the manifest gives none: "0.1.0".
pub fn default_version() -> (r: String)
    ensures
        r@ == "0.1.0"@,
{
    owned("0.1.0")
}

/// `[build]`.
#[derive(Debug)]
pub struct BuildConfig {
    pub mode: BuildMode,
    pub provider: Option<CloudProvider>,
    /// The runtime of the whole project in monolith mode.
    pub runtime: Runtime,
    /// The port the backend listens on in dev mode.
    pub port: u16,
}

/// The runtime a build has when the manifest gives none.
pub fn default_runtime() -> (r: Runtime)
    ensures
        r == Runtime::Rust,
{
    Runtime::Rust
}

/// The port a build listens on when the manifest gives none.
pub fn default_port() -> (r: u16)
    ensures
        r == 3000,
{
    3000
}

/// How the project is deployed.
#[derive(Debug, Clone, Copy, PartialEq, Eq, Structural)]
pub enum BuildMode {
    Monolith,
    Microservices,
    Serverless,
}

/// Where a serverless project is deployed.
#[derive(Debug, Clone, Copy, PartialEq, Eq, Structural)]
pub enum CloudProvider {
    Aws,
    Gcp,
    Vercel,
}

/// The language a backend runs in.
#[derive(Debug, Clone, Copy, PartialEq, Eq, Structural)]
pub enum Runtime {
    Rust,
    TypeScript,
    Python,
}

impl Runtime {
    /// The name `{:?}` prints for the runtime.
    pub open spec fn debug_name(self) -> Seq<char> {
        match self {
            Runtime::Rust => "Rust"@,
            Runtime::TypeScript => "TypeScript"@,
            Runtime::Python => "Python"@,
        }
    }

    /// The name `{:?}` prints for the runtime.
    pub fn debug_str(&self) -> (r: &'static str)
        ensures
            r@ == self.debug_name(),
    {
        match self {
            Runtime::Rust => "Rust",
            Runtime::TypeScript => "TypeScript",
            Runtime::Python => "Python",
        }
    }
}

/// `[[applet]]`.
#[derive(Debug)]
pub struct AppletManifest {
    pub name: String,
    pub path: String,
    /// The auth requirement all of the applet's handlers inherit.
    pub auth: AuthSetting,
    /// The guards all of the applet's handlers inherit.
    pub guards: Vec<String>,
    /// Runs as a persistent container in serverless mode.
    pub stateful: bool,
    /// A runtime of its own; only valid outside monolith mode.
    pub runtime: Option<Runtime>,
}

/// The auth setting of an applet as the manifest writes it.
#[derive(Debug, Clone, Copy, PartialEq, Eq, Structural)]
pub enum AuthSetting {
    Required,
    Public,
    Optional,
}

/// The auth setting an applet has when the manifest gives none.
pub fn default_auth() -> (r: AuthSetting)
    ensures
        r == AuthSetting::Required,
{
    AuthSetting::Required
}

impl AuthSetting {
    /// The word the manifest uses for the setting.
    pub open spec fn word(self) -> Seq<char> {
        match self {
            AuthSetting::Required => "required"@,
            AuthSetting::Public => "public"@,
            AuthSetting::Optional => "optional"@,
        }
    }

    /// The word the manifest uses for the setting.
    pub fn as_word(&self) -> (r: &'static str)
        ensures
            r@ == self.word(),
    {
        match self {
            AuthSetting::Required => "required",
            AuthSetting::Public => "public",
            AuthSetting::Optional => "optional",
        }
    }
}

/// `[[frontend]]`.
#[derive(Debug)]
pub struct FrontendManifest {
    pub name: String,
    pub path: String,
    pub framework: FrontendFramework,
    pub deploy_target: DeployTarget,
    /// How the frontend is served next to the backend.
    pub serve: Option<ServeMode>,
    /// The API prefix in embedded mode.
    pub api_prefix: String,
    /// The command that runs the frontend in dev mode.
    pub dev_command: Option<String>,
    /// The command that builds the frontend for production.
    pub build_command: Option<String>,
    /// The port of the frontend's dev server.
    pub port: Option<u16>,
}

/// The API prefix a frontend has when the manifest gives none: "/api".
pub fn default_api_prefix() -> (r: String)
    ensures
        r@ == "/api"@,
{
    owned("/api")
}

/// The framework a frontend is written in.
#[derive(Debug, Clone, Copy, PartialEq, Eq, Structural)]
pub enum FrontendFramework {
    Next,
    Nuxt,
    Vite,
    Sveltekit,
    Expo,
    Ionic,
}

impl FrontendFramework {
    /// A mobile framework.
    pub open spec fn mobile(self) -> bool {
        self is Expo || self is Ionic
    }

    /// The dev command used when the manifest gives none.
    pub open spec fn dev_command(self) -> Seq<char> {
        match self {
            FrontendFramework::Expo => "npx expo start"@,
            FrontendFramework::Ionic => "ionic serve"@,
            _ => "npm run dev"@,
        }
    }

    /// The build command used when the manifest gives none.
    pub open spec fn build_command(self) -> Seq<char> {
        match self {
            FrontendFramework::Expo => "npx expo export"@,
            FrontendFramework::Ionic => "ionic build"@,
            _ => "npm run build"@,
        }
    }

    /// The dev command used when the manifest gives none.
    pub fn default_dev_command(&self) -> (r: &'static str)
        ensures
            r@ == self.dev_command(),
    {
        match self {
            FrontendFramework::Next => "npm run dev",
            FrontendFramework::Nuxt => "npm run dev",
            FrontendFramework::Vite => "npm run dev",
            FrontendFramework::Sveltekit => "npm run dev",
            FrontendFramework::Expo => "npx expo start",
            FrontendFramework::Ionic => "ionic serve",
        }
    }

    /// The build command used when the manifest gives none.
    pub fn default_build_command(&self) -> (r: &'static str)
        ensures
            r@ == self.build_command(),
    {
        match self {
            FrontendFramework::Next => "npm run build",
            FrontendFramework::Nuxt => "npm run build",
            FrontendFramework::Vite => "npm run build",
            FrontendFramework::Sveltekit => "npm run build",
            FrontendFramework::Expo => "npx expo export",
            FrontendFramework::Ionic => "ionic build",
        }
    }

    /// Expo and Ionic are mobile frameworks; the others are web frameworks.
    pub fn is_mobile(&self) -> (r: bool)
        ensures
            r == self.mobile(),
    {
        match self {
            FrontendFramework::Expo | FrontendFramework::Ionic => true,
            _ => false,
        }
    }

    /// Every supported framework is TypeScript-based.
    pub fn is_ts_based(&self) -> (r: bool)
        ensures
            r,
    {
        true
    }

    /// The name `{:?}` prints for the framework.
    pub open spec fn debug_name(self) -> Seq<char> {
        match self {
            FrontendFramework::Next => "Next"@,
            FrontendFramework::Nuxt => "Nuxt"@,
            FrontendFramework::Vite => "Vite"@,
            FrontendFramework::Sveltekit => "Sveltekit"@,
            FrontendFramework::Expo => "Expo"@,
            FrontendFramework::Ionic => "Ionic"@,
        }
    }

    /// The name `{:?}` prints for the framework.
    pub fn debug_str(&self) -> (r: &'static str)
        ensures
            r@ == self.debug_name(),
    {
        match self {
            FrontendFramework::Next => "Next",
            FrontendFramework::Nuxt => "Nuxt",
            FrontendFramework::Vite => "Vite",
            FrontendFramework::Sveltekit => "Sveltekit",
            FrontendFramework::Expo => "Expo",
            FrontendFramework::Ionic => "Ionic",
        }
    }
}

/// Where a frontend is deployed; `Build` (`^build`) follows the build mode.
#[derive(Debug, Clone, Copy, PartialEq, Eq, Structural)]
pub enum DeployTarget {
    Build,
    Vercel,
    Eas,
    Capacitor,
}

/// How a web frontend is served next to the backend.
#[derive(Debug, Clone, Copy, PartialEq, Eq, Structural)]
pub enum ServeMode {
    Embedded,
    Standalone,
}

/// `[[package]]`.
#[derive(Debug, Default)]
pub struct PackageManifest {
    pub name: String,
    pub path: String,
    pub depends_on: Vec<String>,
    pub built_by: Option<String>,
}

/// `[http]`.
#[derive(Debug)]
pub struct HttpConfig {
    pub cors: CorsConfig,
    /// The request timeout in milliseconds.
    pub timeout_ms: u64,
}

/// The request timeout when the manifest gives none: 30 seconds.
pub fn default_timeout() -> (r: u64)
    ensures
        r == 30_000,
{
    30_000
}

impl Default for HttpConfig {
    fn default() -> (r: Self)
        ensures
            r.cors.origins@.len() == 0,
            r.timeout_ms == 30_000,
    {
        HttpConfig { cors: CorsConfig { origins: Vec::new() }, timeout_ms: 30_000 }
    }
}

/// `[http.cors]`.
#[derive(Debug, Default)]
pub struct CorsConfig {
    pub origins: Vec<String>,
}

/// `[plugins]`.
#[derive(Debug, Default)]
pub struct PluginsConfig {
    pub queue: Option<PluginSetting>,
    pub storage: Option<PluginSetting>,
    pub cache: Option<PluginSetting>,
}

/// Whether a plugin is set up automatically.
#[derive(Debug, Clone, Copy, PartialEq, Eq, Structural)]
pub enum PluginSetting {
    Auto,
    Disabled,
}

/// `[tasks.<name>]`.
#[derive(Debug, Default)]
pub struct TaskConfig {
    pub run: Option<String>,
    pub depends_on: Vec<String>,
}

/// `[env]`.
#[derive(Debug, Default)]
pub struct EnvConfig {
    pub shared: Vec<String>,
    pub api: Vec<String>,
    pub web: Vec<String>,
}

/// A string in double quotes.
pub open spec fn quoted(s: Seq<char>) -> Seq<char> {
    "\""@ + s + "\""@
}

/// The guards, each in double quotes.
pub open spec fn quoted_all(gs: Seq<Seq<char>>) -> Seq<Seq<char>> {
    gs.map_values(|g: Seq<char>| quoted(g))
}

/// The `[[applet]]` entry that is appended to a manifest for `a`: name, path
/// and auth always, `stateful = true` only when set, the guards only when
/// there are any.
pub open spec fn applet_entry(a: AppletManifest) -> Seq<char> {
    "\n[[applet]]\n"@
        + "name"@ + " = "@ + quoted(a.name@) + "\n"@
        + "path"@ + " = "@ + quoted(a.path@) + "\n"@
        + "auth"@ + " = "@ + quoted(a.auth.word()) + "\n"@
        + (if a.stateful { "stateful = true\n"@ } else { Seq::empty() })
        + (if a.guards@.len() > 0 {
            "guards = ["@ + join(quoted_all(views(a.guards@)), ", "@) + "]\n"@
        } else {
            Seq::empty()
        })
}

/// The manifest text after appending the entry for `a`: the existing text,
/// a newline if it does not end with one, then the entry.
pub open spec fn appended_text(existing: Seq<char>, a: AppletManifest) -> Seq<char> {
    (if is_suffix("\n"@, existing) { existing } else { existing + "\n"@ }) + applet_entry(a)
}

/// `s` in double quotes.
fn quote(s: &str) -> (r: String)
    ensures
        r@ == quoted(s@),
{
    cat(cat("\"", s).as_str(), "\"")
}

/// `key = "value"` and a newline.
fn setting_line(key: &str, value: &str) -> (r: String)
    ensures
        r@ == key@ + " = "@ + quoted(value@) + "\n"@,
{
    let mut line = cat(key, " = ");
    line.append(quote(value).as_str());
    line.append("\n");
    line
}

/// The guards line of an entry: `guards = ["a", "b"]` and a newline.
fn guards_line(guards: &Vec<String>) -> (r: String)
    ensures
        r@ == "guards = ["@ + join(quoted_all(views(guards@)), ", "@) + "]\n"@,
{
    let mut quoted_guards: Vec<String> = Vec::new();
    let mut i: usize = 0;
    while i < guards.len()
        invariant
            i <= guards@.len(),
            quoted_guards@.len() == i,
            forall|j: int| 0 <= j < i ==> (#[trigger] quoted_guards@[j])@ == quoted(guards@[j]@),
        decreases guards@.len() - i,
    {
        quoted_guards.push(quote(guards[i].as_str()));
        i = i + 1;
    }
    let list = join_strings(quoted_guards.as_slice(), ", ");
    proof {
        assert(views(quoted_guards@) =~= quoted_all(views(guards@)));
    }
    let mut line = owned("guards = [");
    line.append(list.as_str());
    line.append("]\n");
    line
}

/// The `[[applet]]` entry for `applet`.
fn applet_entry_text(applet: &AppletManifest) -> (r: String)
    ensures
        r@ == applet_entry(*applet),
{
    let name = setting_line("name", applet.name.as_str());
    let path = setting_line("path", applet.path.as_str());
    let auth = setting_line("auth", applet.auth.as_word());
    let mut text = owned("\n[[applet]]\n");
    text.append(name.as_str());
    text.append(path.as_str());
    text.append(auth.as_str());
    let ghost head = text@;
    if applet.stateful {
        text.append("stateful = true\n");
    }
    let ghost mid = text@;
    if applet.guards.len() > 0 {
        let g = guards_line(&applet.guards);
        text.append(g.as_str());
    }
    proof {
        let a = *applet;
        let stateful_part: Seq<char> = if a.stateful { "stateful = true\n"@ } else { Seq::empty() };
        let guards_part: Seq<char> = if a.guards@.len() > 0 {
            "guards = ["@ + join(quoted_all(views(a.guards@)), ", "@) + "]\n"@
        } else {
            Seq::empty()
        };
        assert(mid =~= head + stateful_part);
        assert(text@ =~= mid + guards_part);
        assert(head =~= "\n[[applet]]\n"@
            + "name"@ + " = "@ + quoted(a.name@) + "\n"@
            + "path"@ + " = "@ + quoted(a.path@) + "\n"@
            + "auth"@ + " = "@ + quoted(a.auth.word()) + "\n"@);
        assert(text@ =~= applet_entry(a));
    }
    text
}

/// The text of a manifest with an `[[applet]]` entry for `applet` appended,
/// leaving the existing text (and its comments) as it is.
pub fn append_applet_text(existing: &str, applet: &AppletManifest) -> (r: String)
    ensures
        r@ == appended_text(existing@, *applet),
{
    let mut text = owned(existing);
    if !ends_with(existing, "\n") {
        text.append("\n");
    }
    let entry = applet_entry_text(applet);
    text.append(entry.as_str());
    text
}

/// Appending keeps the existing manifest text, comments included, as a
/// prefix of the new text.
pub proof fn law_append_keeps_existing_text(existing: Seq<char>, a: AppletManifest)
    ensures
        crate::text::is_prefix(existing, appended_text(existing, a)),
{
    let r = appended_text(existing, a);
    assert(r.subrange(0, existing.len() as int) =~= existing);
}

} // verus!
