use std::path::PathBuf;
use sweech::manifest::{
    append_applet_text, default_api_prefix, default_auth, default_port, default_runtime, default_timeout,
    default_version, AppletManifest, AuthSetting, BuildConfig, BuildMode, DeployTarget, EnvConfig,
    FrontendFramework, FrontendManifest, HttpConfig, Manifest, PluginsConfig, ProjectConfig, Runtime,
    ServeMode, TaskConfig,
};
use sweech::scanner::{ScannedApplet, ScannedProject};
use sweech::validator::{has_errors, validate, Severity};

fn empty_project() -> ScannedProject {
    ScannedProject { root: PathBuf::from("/tmp"), applets: vec![] }
}

fn base_manifest(mode: BuildMode) -> Manifest {
    Manifest {
        project: ProjectConfig { name: "test".to_string(), version: default_version(), description: None },
        build: BuildConfig { mode, provider: None, runtime: default_runtime(), port: default_port() },
        applets: vec![],
        frontends: vec![],
        packages: vec![],
        http: HttpConfig::default(),
        plugins: PluginsConfig::default(),
        tasks: vec![],
        env: EnvConfig::default(),
    }
}

fn applet(name: &str, runtime: Option<Runtime>) -> AppletManifest {
    AppletManifest {
        name: name.to_string(),
        path: format!("{}.applet", name),
        auth: default_auth(),
        guards: vec![],
        stateful: false,
        runtime,
    }
}

fn frontend(name: &str, framework: FrontendFramework, target: DeployTarget, serve: Option<ServeMode>) -> FrontendManifest {
    FrontendManifest {
        name: name.to_string(),
        path: format!("apps/{}", name),
        framework,
        deploy_target: target,
        serve,
        api_prefix: default_api_prefix(),
        dev_command: None,
        build_command: None,
        port: None,
    }
}

#[test]
fn defaults_match_the_schema() {
    assert_eq!(default_version(), "0.1.0");
    assert_eq!(default_runtime(), Runtime::Rust);
    assert_eq!(default_port(), 3000);
    assert_eq!(default_auth(), AuthSetting::Required);
    assert_eq!(default_api_prefix(), "/api");
    assert_eq!(default_timeout(), 30_000);
    assert_eq!(HttpConfig::default().timeout_ms, 30_000);
}

#[test]
fn frontend_default_commands_from_framework() {
    let fe = frontend("web", FrontendFramework::Vite, DeployTarget::Build, Some(ServeMode::Standalone));
    // dev_command not set in manifest — should fall back to framework default
    assert!(fe.dev_command.is_none());
    assert_eq!(fe.framework.default_dev_command(), "npm run dev");
}

#[test]
fn framework_commands_and_kinds() {
    assert_eq!(FrontendFramework::Expo.default_dev_command(), "npx expo start");
    assert_eq!(FrontendFramework::Ionic.default_dev_command(), "ionic serve");
    assert_eq!(FrontendFramework::Next.default_build_command(), "npm run build");
    assert_eq!(FrontendFramework::Expo.default_build_command(), "npx expo export");
    assert_eq!(FrontendFramework::Ionic.default_build_command(), "ionic build");
    assert!(FrontendFramework::Expo.is_mobile());
    assert!(FrontendFramework::Ionic.is_mobile());
    assert!(!FrontendFramework::Sveltekit.is_mobile());
    assert!(FrontendFramework::Nuxt.is_ts_based());
}

#[test]
fn clean_manifest_has_no_issues() {
    let manifest = base_manifest(BuildMode::Monolith);
    let issues = validate(&manifest, &empty_project());
    assert!(issues.is_empty(), "{:?}", issues);
}

#[test]
fn monolith_with_mixed_runtime_is_error() {
    let mut manifest = base_manifest(BuildMode::Monolith);
    manifest.build.runtime = Runtime::Rust;
    manifest.applets.push(applet("auth", Some(Runtime::TypeScript)));
    let issues = validate(&manifest, &empty_project());
    assert!(has_errors(&issues));
    assert!(issues.iter().any(|i| i.code == "MONOLITH_MIXED_RUNTIME"));
}

#[test]
fn mixed_runtime_message_is_exact() {
    let mut manifest = base_manifest(BuildMode::Monolith);
    manifest.applets.push(applet("auth", Some(Runtime::TypeScript)));
    let issues = validate(&manifest, &empty_project());
    assert_eq!(issues[0].code, "MONOLITH_MIXED_RUNTIME");
    assert_eq!(
        issues[0].message,
        "Applet 'auth' declares runtime 'TypeScript' but monolith build runtime is 'Rust'. \
         In monolith mode all applets must use the same runtime, declared at [build] level."
    );
    // then APPLET_NOT_FOUND, then the runtime warning, in rule order
    assert_eq!(issues[1].code, "APPLET_NOT_FOUND");
    assert_eq!(issues[2].code, "APPLET_RUNTIME_IN_MONOLITH");
    assert_eq!(issues[2].severity, Severity::Warning);
    assert_eq!(issues.len(), 3);
}

#[test]
fn embedded_on_expo_is_error() {
    let mut manifest = base_manifest(BuildMode::Monolith);
    manifest.frontends.push(frontend("mobile", FrontendFramework::Expo, DeployTarget::Eas, Some(ServeMode::Embedded)));
    let issues = validate(&manifest, &empty_project());
    assert!(has_errors(&issues));
    assert!(issues.iter().any(|i| i.code == "EMBEDDED_ON_MOBILE"));
}

#[test]
fn build_frontend_missing_serve_is_error() {
    let mut manifest = base_manifest(BuildMode::Monolith);
    manifest.frontends.push(frontend("web", FrontendFramework::Next, DeployTarget::Build, None));
    let issues = validate(&manifest, &empty_project());
    assert!(has_errors(&issues));
    assert!(
        issues
            .iter()
            .any(|i| i.code == "MISSING_SERVE_ON_BUILD_FRONTEND")
    );
}

#[test]
fn serverless_with_generic_deploy_target_is_error() {
    let mut manifest = base_manifest(BuildMode::Serverless);
    manifest.frontends.push(frontend("web", FrontendFramework::Next, DeployTarget::Build, Some(ServeMode::Standalone)));
    let issues = validate(&manifest, &empty_project());
    assert!(has_errors(&issues));
    assert!(
        issues
            .iter()
            .any(|i| i.code == "SERVERLESS_GENERIC_DEPLOY_TARGET")
    );
}

#[test]
fn applet_runtime_in_monolith_is_warning() {
    let mut manifest = base_manifest(BuildMode::Monolith);
    manifest.applets.push(applet("auth", Some(Runtime::Rust)));
    // Include the applet in the scanned project so APPLET_NOT_FOUND doesn't fire
    let project = ScannedProject {
        root: PathBuf::from("/tmp"),
        applets: vec![ScannedApplet {
            name: "auth".to_string(),
            path: PathBuf::from("/tmp/auth.applet"),
            routes: vec![],
        }],
    };
    let issues = validate(&manifest, &project);
    assert!(!has_errors(&issues), "unexpected errors: {:?}", issues);
    assert!(
        issues
            .iter()
            .any(|i| i.code == "APPLET_RUNTIME_IN_MONOLITH")
    );
}

#[test]
fn standalone_with_custom_api_prefix_is_warning() {
    let mut manifest = base_manifest(BuildMode::Monolith);
    let mut fe = frontend("web", FrontendFramework::Next, DeployTarget::Vercel, Some(ServeMode::Standalone));
    fe.api_prefix = "/v1".to_string();
    manifest.frontends.push(fe);
    let issues = validate(&manifest, &empty_project());
    assert!(!has_errors(&issues));
    assert_eq!(issues.len(), 1);
    assert_eq!(issues[0].code, "API_PREFIX_ON_STANDALONE");
    assert_eq!(
        issues[0].message,
        "Frontend 'web' is standalone but declares api_prefix = '/v1'. \
         api_prefix is only used in embedded mode — it will be ignored."
    );
}

#[test]
fn secrets_in_task_commands_are_errors() {
    let mut manifest = base_manifest(BuildMode::Microservices);
    manifest.tasks.push(("deploy".to_string(), TaskConfig { run: Some("curl -H $API_TOKEN x".to_string()), depends_on: vec![] }));
    manifest.tasks.push(("test".to_string(), TaskConfig { run: Some("cargo test".to_string()), depends_on: vec![] }));
    manifest.tasks.push(("idle".to_string(), TaskConfig::default()));
    let issues = validate(&manifest, &empty_project());
    assert_eq!(issues.len(), 1);
    assert_eq!(issues[0].code, "SECRET_IN_MANIFEST");
    assert_eq!(
        issues[0].message,
        "Task 'deploy' run command may contain a secret. Use environment variables instead of hardcoding secrets."
    );
}

#[test]
fn undeclared_applet_folder_is_error() {
    let mut manifest = base_manifest(BuildMode::Microservices);
    manifest.applets.push(applet("billing", Some(Runtime::Python)));
    let issues = validate(&manifest, &empty_project());
    assert_eq!(issues.len(), 1);
    assert_eq!(
        issues[0].message,
        "Applet 'billing' is declared in the manifest (path: 'billing.applet') but no corresponding .applet directory was found."
    );
}

#[test]
fn has_errors_ignores_warnings() {
    assert!(!has_errors(&[]));
}

#[test]
fn appended_entry_keeps_existing_text() {
    let mut a = applet("inventory", None);
    let text = append_applet_text("[project]\nname = \"x\"", &a);
    assert_eq!(
        text,
        "[project]\nname = \"x\"\n\n[[applet]]\nname = \"inventory\"\npath = \"inventory.applet\"\nauth = \"required\"\n"
    );
    a.auth = AuthSetting::Public;
    a.stateful = true;
    a.guards = vec!["billing:active".to_string(), "role:admin".to_string()];
    let text = append_applet_text("# c\n", &a);
    assert_eq!(
        text,
        "# c\n\n[[applet]]\nname = \"inventory\"\npath = \"inventory.applet\"\nauth = \"public\"\nstateful = true\nguards = [\"billing:active\", \"role:admin\"]\n"
    );
}
