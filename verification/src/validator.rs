use vstd::prelude::*;
use crate::manifest::{Manifest, AppletManifest, FrontendManifest, TaskConfig, BuildMode, Runtime,
    DeployTarget, ServeMode};
use crate::scanner::ScannedProject;
use crate::text::{owned, str_eq, contains_str, has_substring, views};

verus! {

/// How serious a finding is: errors stop a build, warnings do not.
#[derive(Debug, Clone, Copy, PartialEq, Eq, Structural)]
pub enum Severity {
    Error,
    Warning,
}

/// One finding of the pre-flight check.
#[derive(Debug)]
pub struct ValidationIssue {
    pub severity: Severity,
    /// A fixed machine-readable code, e.g. "EMBEDDED_ON_MOBILE".
    pub code: &'static str,
    /// An explanation for the developer.
    pub message: String,
}

/// A finding as plain values.
pub ghost struct IssueView {
    pub severity: Severity,
    pub code: Seq<char>,
    pub message: Seq<char>,
}

impl View for ValidationIssue {
    type V = IssueView;

    open spec fn view(&self) -> IssueView {
        IssueView { severity: self.severity, code: self.code@, message: self.message@ }
    }
}

/// The findings as plain values.
pub open spec fn issue_views(v: Seq<ValidationIssue>) -> Seq<IssueView> {
    v.map_values(|i: ValidationIssue| i@)
}

/// An error finding.
pub open spec fn error_issue(code: Seq<char>, message: Seq<char>) -> IssueView {
    IssueView { severity: Severity::Error, code, message }
}

/// A warning finding.
pub open spec fn warning_issue(code: Seq<char>, message: Seq<char>) -> IssueView {
    IssueView { severity: Severity::Warning, code, message }
}

impl ValidationIssue {
    pub(crate) fn error(code: &'static str, message: String) -> (r: Self)
        ensures
            r@ == error_issue(code@, message@),
    {
        ValidationIssue { severity: Severity::Error, code, message }
    }

    pub(crate) fn warning(code: &'static str, message: String) -> (r: Self)
        ensures
            r@ == warning_issue(code@, message@),
    {
        ValidationIssue { severity: Severity::Warning, code, message }
    }
}

/// Appends `extra` to `out`, keeping the plain values in step.
fn append_issues(out: &mut Vec<ValidationIssue>, extra: Vec<ValidationIssue>)
    ensures
        issue_views(final(out)@) == issue_views(old(out)@) + issue_views(extra@),
{
    let mut extra = extra;
    let ghost start = out@;
    let ghost ex = extra@;
    out.append(&mut extra);
    assert(out@ =~= start + ex);
    assert(issue_views(out@) =~= issue_views(start) + issue_views(ex));
}

// ── MONOLITH_MIXED_RUNTIME ──────────────────────────────────────────────────

/// The message for an applet whose runtime differs from the monolith's.
pub open spec fn mixed_runtime_message(name: Seq<char>, rt: Runtime, build_rt: Runtime) -> Seq<char> {
    "Applet '"@ + name + "' declares runtime '"@ + rt.debug_name()
        + "' but monolith build runtime is '"@ + build_rt.debug_name()
        + "'. In monolith mode all applets must use the same runtime, declared at [build] level."@
}

/// The finding for one applet of a monolith built with runtime `build_rt`.
pub open spec fn mixed_runtime_issues(applets: Seq<AppletManifest>, build_rt: Runtime) -> Seq<IssueView>
    decreases applets.len(),
{
    if applets.len() == 0 {
        Seq::empty()
    } else {
        let a = applets.last();
        mixed_runtime_issues(applets.drop_last(), build_rt) + match a.runtime {
            Some(rt) => if rt != build_rt {
                seq![error_issue("MONOLITH_MIXED_RUNTIME"@, mixed_runtime_message(a.name@, rt, build_rt))]
            } else {
                Seq::empty()
            },
            None => Seq::empty(),
        }
    }
}

/// In monolith mode no applet may declare a runtime other than the build's.
pub open spec fn spec_monolith_single_runtime(m: Manifest) -> Seq<IssueView> {
    if m.build.mode != BuildMode::Monolith {
        Seq::empty()
    } else {
        mixed_runtime_issues(m.applets@, m.build.runtime)
    }
}

fn check_monolith_single_runtime(manifest: &Manifest) -> (r: Vec<ValidationIssue>)
    ensures
        issue_views(r@) == spec_monolith_single_runtime(*manifest),
{
    let mut out: Vec<ValidationIssue> = Vec::new();
    if manifest.build.mode != BuildMode::Monolith {
        assert(issue_views(out@) =~= Seq::<IssueView>::empty());
        return out;
    }
    let build_rt = manifest.build.runtime;
    let mut i: usize = 0;
    while i < manifest.applets.len()
        invariant
            i <= manifest.applets@.len(),
            build_rt == manifest.build.runtime,
            issue_views(out@) == mixed_runtime_issues(manifest.applets@.take(i as int), build_rt),
        decreases manifest.applets@.len() - i,
    {
        let a = &manifest.applets[i];
        let ghost before = out@;
        assert(manifest.applets@.take(i + 1).drop_last() =~= manifest.applets@.take(i as int));
        match a.runtime {
            Some(rt) => {
                if rt != build_rt {
                    let mut msg = owned("Applet '");
                    msg.append(a.name.as_str());
                    msg.append("' declares runtime '");
                    msg.append(rt.debug_str());
                    msg.append("' but monolith build runtime is '");
                    msg.append(build_rt.debug_str());
                    msg.append("'. In monolith mode all applets must use the same runtime, declared at [build] level.");
                    out.push(ValidationIssue::error("MONOLITH_MIXED_RUNTIME", msg));
                    assert(issue_views(out@) =~= issue_views(before).push(issue_views(out@).last()));
                }
            },
            None => {},
        }
        i = i + 1;
        assert(issue_views(out@) =~= mixed_runtime_issues(manifest.applets@.take(i as int), build_rt));
    }
    assert(manifest.applets@.take(manifest.applets@.len() as int) =~= manifest.applets@);
    out
}

// ── SECRET_IN_MANIFEST ──────────────────────────────────────────────────────

/// A command that looks like it holds a secret.
pub open spec fn looks_secret(run: Seq<char>) -> bool {
    has_substring(run, "SECRET"@) || has_substring(run, "PASSWORD"@) || has_substring(run, "TOKEN"@)
}

/// The message for a task whose command may hold a secret.
pub open spec fn secret_message(name: Seq<char>) -> Seq<char> {
    "Task '"@ + name + "' run command may contain a secret. Use environment variables instead of hardcoding secrets."@
}

/// The findings for the tasks, in order.
pub open spec fn secret_issues(tasks: Seq<(String, TaskConfig)>) -> Seq<IssueView>
    decreases tasks.len(),
{
    if tasks.len() == 0 {
        Seq::empty()
    } else {
        let t = tasks.last();
        secret_issues(tasks.drop_last()) + match t.1.run {
            Some(run) => if looks_secret(run@) {
                seq![error_issue("SECRET_IN_MANIFEST"@, secret_message(t.0@))]
            } else {
                Seq::empty()
            },
            None => Seq::empty(),
        }
    }
}

/// No task command may hold something that looks like a secret.
pub open spec fn spec_no_secrets_in_manifest(m: Manifest) -> Seq<IssueView> {
    secret_issues(m.tasks@)
}

fn check_no_secrets_in_manifest(manifest: &Manifest) -> (r: Vec<ValidationIssue>)
    ensures
        issue_views(r@) == spec_no_secrets_in_manifest(*manifest),
{
    let mut out: Vec<ValidationIssue> = Vec::new();
    let mut i: usize = 0;
    assert(issue_views(out@) =~= secret_issues(manifest.tasks@.take(0)));
    while i < manifest.tasks.len()
        invariant
            i <= manifest.tasks@.len(),
            issue_views(out@) == secret_issues(manifest.tasks@.take(i as int)),
        decreases manifest.tasks@.len() - i,
    {
        let t = &manifest.tasks[i];
        let ghost before = out@;
        assert(manifest.tasks@.take(i + 1).drop_last() =~= manifest.tasks@.take(i as int));
        match &t.1.run {
            Some(run) => {
                let r = run.as_str();
                if contains_str(r, "SECRET") || contains_str(r, "PASSWORD") || contains_str(r, "TOKEN") {
                    let mut msg = owned("Task '");
                    msg.append(t.0.as_str());
                    msg.append("' run command may contain a secret. Use environment variables instead of hardcoding secrets.");
                    out.push(ValidationIssue::error("SECRET_IN_MANIFEST", msg));
                    assert(issue_views(out@) =~= issue_views(before).push(issue_views(out@).last()));
                }
            },
            None => {},
        }
        i = i + 1;
        assert(issue_views(out@) =~= secret_issues(manifest.tasks@.take(i as int)));
    }
    assert(manifest.tasks@.take(manifest.tasks@.len() as int) =~= manifest.tasks@);
    out
}

// ── APPLET_NOT_FOUND ────────────────────────────────────────────────────────

/// The names of the applets a scan found.
pub open spec fn scanned_names(p: ScannedProject) -> Seq<Seq<char>> {
    p.applets@.map_values(|a: crate::scanner::ScannedApplet| a.name@)
}

/// The message for a declared applet that has no folder.
pub open spec fn missing_applet_message(name: Seq<char>, path: Seq<char>) -> Seq<char> {
    "Applet '"@ + name + "' is declared in the manifest (path: '"@ + path
        + "') but no corresponding .applet directory was found."@
}

/// The findings for the declared applets, in order.
pub open spec fn missing_applet_issues(applets: Seq<AppletManifest>, found: Seq<Seq<char>>) -> Seq<IssueView>
    decreases applets.len(),
{
    if applets.len() == 0 {
        Seq::empty()
    } else {
        let a = applets.last();
        missing_applet_issues(applets.drop_last(), found) + if found.contains(a.name@) {
            Seq::empty()
        } else {
            seq![error_issue("APPLET_NOT_FOUND"@, missing_applet_message(a.name@, a.path@))]
        }
    }
}

/// Every applet the manifest declares must have been found by the scan,
/// matched by name.
pub open spec fn spec_applet_paths_exist(m: Manifest, p: ScannedProject) -> Seq<IssueView> {
    missing_applet_issues(m.applets@, scanned_names(p))
}

/// Whether the scan found an applet called `name`.
fn scanned_has(project: &ScannedProject, name: &str) -> (r: bool)
    ensures
        r == scanned_names(*project).contains(name@),
{
    let ghost names = scanned_names(*project);
    let mut i: usize = 0;
    while i < project.applets.len()
        invariant
            i <= project.applets@.len(),
            names == scanned_names(*project),
            forall|j: int| 0 <= j < i ==> names[j] != name@,
        decreases project.applets@.len() - i,
    {
        if str_eq(project.applets[i].name.as_str(), name) {
            assert(names[i as int] == name@);
            return true;
        }
        i = i + 1;
    }
    false
}

fn check_applet_paths_exist(manifest: &Manifest, project: &ScannedProject) -> (r: Vec<ValidationIssue>)
    ensures
        issue_views(r@) == spec_applet_paths_exist(*manifest, *project),
{
    let ghost found = scanned_names(*project);
    let mut out: Vec<ValidationIssue> = Vec::new();
    let mut i: usize = 0;
    assert(issue_views(out@) =~= missing_applet_issues(manifest.applets@.take(0), found));
    while i < manifest.applets.len()
        invariant
            i <= manifest.applets@.len(),
            found == scanned_names(*project),
            issue_views(out@) == missing_applet_issues(manifest.applets@.take(i as int), found),
        decreases manifest.applets@.len() - i,
    {
        let a = &manifest.applets[i];
        let ghost before = out@;
        assert(manifest.applets@.take(i + 1).drop_last() =~= manifest.applets@.take(i as int));
        if !scanned_has(project, a.name.as_str()) {
            let mut msg = owned("Applet '");
            msg.append(a.name.as_str());
            msg.append("' is declared in the manifest (path: '");
            msg.append(a.path.as_str());
            msg.append("') but no corresponding .applet directory was found.");
            out.push(ValidationIssue::error("APPLET_NOT_FOUND", msg));
            assert(issue_views(out@) =~= issue_views(before).push(issue_views(out@).last()));
        }
        i = i + 1;
        assert(issue_views(out@) =~= missing_applet_issues(manifest.applets@.take(i as int), found));
    }
    assert(manifest.applets@.take(manifest.applets@.len() as int) =~= manifest.applets@);
    out
}

// ── Frontend serve rules ────────────────────────────────────────────────────

/// The message for an embedded mobile frontend.
pub open spec fn embedded_on_mobile_message(f: FrontendManifest) -> Seq<char> {
    "Frontend '"@ + f.name@ + "' uses framework '"@ + f.framework.debug_name()
        + "' (mobile) with serve = 'embedded'. Embedded mode is only valid for web frameworks."@
}

/// The message for a `^build` web frontend without a serve mode.
pub open spec fn missing_serve_message(f: FrontendManifest) -> Seq<char> {
    "Frontend '"@ + f.name@
        + "' has deploy_target = '^build' but no serve mode declared. Add `serve = \"embedded\"` or `serve = \"standalone\"`."@
}

/// The message for a standalone frontend with its own API prefix.
pub open spec fn api_prefix_message(f: FrontendManifest) -> Seq<char> {
    "Frontend '"@ + f.name@ + "' is standalone but declares api_prefix = '"@ + f.api_prefix@
        + "'. api_prefix is only used in embedded mode — it will be ignored."@
}

/// The findings for one frontend: embedded on a mobile framework is an
/// error; a `^build` web frontend without a serve mode is an error; a
/// standalone frontend with an API prefix other than "/api" is a warning.
pub open spec fn frontend_serve_issues(f: FrontendManifest) -> Seq<IssueView> {
    (if f.framework.mobile() && f.serve == Some(ServeMode::Embedded) {
        seq![error_issue("EMBEDDED_ON_MOBILE"@, embedded_on_mobile_message(f))]
    } else {
        Seq::empty()
    }) + (if !f.framework.mobile() && f.deploy_target == DeployTarget::Build && f.serve is None {
        seq![error_issue("MISSING_SERVE_ON_BUILD_FRONTEND"@, missing_serve_message(f))]
    } else {
        Seq::empty()
    }) + (if f.serve == Some(ServeMode::Standalone) && f.api_prefix@ != "/api"@ {
        seq![warning_issue("API_PREFIX_ON_STANDALONE"@, api_prefix_message(f))]
    } else {
        Seq::empty()
    })
}

/// The findings for the frontends, in order.
pub open spec fn serve_issues(fs: Seq<FrontendManifest>) -> Seq<IssueView>
    decreases fs.len(),
{
    if fs.len() == 0 {
        Seq::empty()
    } else {
        serve_issues(fs.drop_last()) + frontend_serve_issues(fs.last())
    }
}

/// The serve rules applied to every frontend.
pub open spec fn spec_frontend_serve_rules(m: Manifest) -> Seq<IssueView> {
    serve_issues(m.frontends@)
}

fn one_frontend_serve_issues(f: &FrontendManifest) -> (r: Vec<ValidationIssue>)
    ensures
        issue_views(r@) == frontend_serve_issues(*f),
{
    let mut out: Vec<ValidationIssue> = Vec::new();
    let is_mobile = f.framework.is_mobile();
    let embedded = match f.serve {
        Some(ServeMode::Embedded) => true,
        _ => false,
    };
    let standalone = match f.serve {
        Some(ServeMode::Standalone) => true,
        _ => false,
    };
    let ghost e0 = issue_views(out@);
    if is_mobile && embedded {
        let mut msg = owned("Frontend '");
        msg.append(f.name.as_str());
        msg.append("' uses framework '");
        msg.append(f.framework.debug_str());
        msg.append("' (mobile) with serve = 'embedded'. Embedded mode is only valid for web frameworks.");
        out.push(ValidationIssue::error("EMBEDDED_ON_MOBILE", msg));
    }
    let ghost e1 = issue_views(out@);
    if !is_mobile && f.deploy_target == DeployTarget::Build && f.serve.is_none() {
        let mut msg = owned("Frontend '");
        msg.append(f.name.as_str());
        msg.append("' has deploy_target = '^build' but no serve mode declared. Add `serve = \"embedded\"` or `serve = \"standalone\"`.");
        out.push(ValidationIssue::error("MISSING_SERVE_ON_BUILD_FRONTEND", msg));
    }
    let ghost e2 = issue_views(out@);
    if standalone && !str_eq(f.api_prefix.as_str(), "/api") {
        let mut msg = owned("Frontend '");
        msg.append(f.name.as_str());
        msg.append("' is standalone but declares api_prefix = '");
        msg.append(f.api_prefix.as_str());
        msg.append("'. api_prefix is only used in embedded mode — it will be ignored.");
        out.push(ValidationIssue::warning("API_PREFIX_ON_STANDALONE", msg));
    }
    proof {
        let a: Seq<IssueView> = if f.framework.mobile() && f.serve == Some(ServeMode::Embedded) {
            seq![error_issue("EMBEDDED_ON_MOBILE"@, embedded_on_mobile_message(*f))]
        } else {
            Seq::empty()
        };
        let b: Seq<IssueView> = if !f.framework.mobile() && f.deploy_target == DeployTarget::Build && f.serve is None {
            seq![error_issue("MISSING_SERVE_ON_BUILD_FRONTEND"@, missing_serve_message(*f))]
        } else {
            Seq::empty()
        };
        let c: Seq<IssueView> = if f.serve == Some(ServeMode::Standalone) && f.api_prefix@ != "/api"@ {
            seq![warning_issue("API_PREFIX_ON_STANDALONE"@, api_prefix_message(*f))]
        } else {
            Seq::empty()
        };
        assert(e1 =~= e0 + a);
        assert(e2 =~= e1 + b);
        assert(issue_views(out@) =~= e2 + c);
        assert(e0 =~= Seq::<IssueView>::empty());
        assert(issue_views(out@) =~= a + b + c);
    }
    out
}

fn check_frontend_serve_rules(manifest: &Manifest) -> (r: Vec<ValidationIssue>)
    ensures
        issue_views(r@) == spec_frontend_serve_rules(*manifest),
{
    let mut out: Vec<ValidationIssue> = Vec::new();
    let mut i: usize = 0;
    assert(issue_views(out@) =~= serve_issues(manifest.frontends@.take(0)));
    while i < manifest.frontends.len()
        invariant
            i <= manifest.frontends@.len(),
            issue_views(out@) == serve_issues(manifest.frontends@.take(i as int)),
        decreases manifest.frontends@.len() - i,
    {
        assert(manifest.frontends@.take(i + 1).drop_last() =~= manifest.frontends@.take(i as int));
        let extra = one_frontend_serve_issues(&manifest.frontends[i]);
        append_issues(&mut out, extra);
        i = i + 1;
    }
    assert(manifest.frontends@.take(manifest.frontends@.len() as int) =~= manifest.frontends@);
    out
}

// ── SERVERLESS_GENERIC_DEPLOY_TARGET ────────────────────────────────────────

/// The message for a `^build` frontend in serverless mode.
pub open spec fn serverless_target_message(name: Seq<char>) -> Seq<char> {
    "Frontend '"@ + name
        + "' uses deploy_target = '^build' in serverless mode. Use an explicit target such as deploy_target = 'vercel'."@
}

/// The findings for the frontends of a serverless project, in order.
pub open spec fn serverless_target_issues(fs: Seq<FrontendManifest>) -> Seq<IssueView>
    decreases fs.len(),
{
    if fs.len() == 0 {
        Seq::empty()
    } else {
        let f = fs.last();
        serverless_target_issues(fs.drop_last()) + if f.deploy_target == DeployTarget::Build {
            seq![error_issue("SERVERLESS_GENERIC_DEPLOY_TARGET"@, serverless_target_message(f.name@))]
        } else {
            Seq::empty()
        }
    }
}

/// In serverless mode no frontend may deploy with `^build`.
pub open spec fn spec_serverless_frontend_deploy_target(m: Manifest) -> Seq<IssueView> {
    if m.build.mode != BuildMode::Serverless {
        Seq::empty()
    } else {
        serverless_target_issues(m.frontends@)
    }
}

fn check_serverless_frontend_deploy_target(manifest: &Manifest) -> (r: Vec<ValidationIssue>)
    ensures
        issue_views(r@) == spec_serverless_frontend_deploy_target(*manifest),
{
    let mut out: Vec<ValidationIssue> = Vec::new();
    if manifest.build.mode != BuildMode::Serverless {
        assert(issue_views(out@) =~= Seq::<IssueView>::empty());
        return out;
    }
    let mut i: usize = 0;
    assert(issue_views(out@) =~= serverless_target_issues(manifest.frontends@.take(0)));
    while i < manifest.frontends.len()
        invariant
            i <= manifest.frontends@.len(),
            issue_views(out@) == serverless_target_issues(manifest.frontends@.take(i as int)),
        decreases manifest.frontends@.len() - i,
    {
        let f = &manifest.frontends[i];
        let ghost before = out@;
        assert(manifest.frontends@.take(i + 1).drop_last() =~= manifest.frontends@.take(i as int));
        if f.deploy_target == DeployTarget::Build {
            let mut msg = owned("Frontend '");
            msg.append(f.name.as_str());
            msg.append("' uses deploy_target = '^build' in serverless mode. Use an explicit target such as deploy_target = 'vercel'.");
            out.push(ValidationIssue::error("SERVERLESS_GENERIC_DEPLOY_TARGET", msg));
            assert(issue_views(out@) =~= issue_views(before).push(issue_views(out@).last()));
        }
        i = i + 1;
        assert(issue_views(out@) =~= serverless_target_issues(manifest.frontends@.take(i as int)));
    }
    assert(manifest.frontends@.take(manifest.frontends@.len() as int) =~= manifest.frontends@);
    out
}

// ── APPLET_RUNTIME_IN_MONOLITH ──────────────────────────────────────────────

/// The message for an applet that declares a runtime in monolith mode.
pub open spec fn runtime_in_monolith_message(name: Seq<char>) -> Seq<char> {
    "Applet '"@ + name
        + "' declares a runtime but mode is monolith. Per-applet runtime is only valid in microservices/serverless mode. Remove the runtime declaration or change the build mode."@
}

/// The findings for the applets of a monolith, in order.
pub open spec fn runtime_in_monolith_issues(applets: Seq<AppletManifest>) -> Seq<IssueView>
    decreases applets.len(),
{
    if applets.len() == 0 {
        Seq::empty()
    } else {
        let a = applets.last();
        runtime_in_monolith_issues(applets.drop_last()) + if a.runtime is Some {
            seq![warning_issue("APPLET_RUNTIME_IN_MONOLITH"@, runtime_in_monolith_message(a.name@))]
        } else {
            Seq::empty()
        }
    }
}

/// In monolith mode an applet should declare no runtime at all (a warning,
/// even when it matches the build's).
pub open spec fn spec_applet_runtime_in_monolith(m: Manifest) -> Seq<IssueView> {
    if m.build.mode != BuildMode::Monolith {
        Seq::empty()
    } else {
        runtime_in_monolith_issues(m.applets@)
    }
}

fn check_applet_runtime_in_monolith(manifest: &Manifest) -> (r: Vec<ValidationIssue>)
    ensures
        issue_views(r@) == spec_applet_runtime_in_monolith(*manifest),
{
    let mut out: Vec<ValidationIssue> = Vec::new();
    if manifest.build.mode != BuildMode::Monolith {
        assert(issue_views(out@) =~= Seq::<IssueView>::empty());
        return out;
    }
    let mut i: usize = 0;
    assert(issue_views(out@) =~= runtime_in_monolith_issues(manifest.applets@.take(0)));
    while i < manifest.applets.len()
        invariant
            i <= manifest.applets@.len(),
            issue_views(out@) == runtime_in_monolith_issues(manifest.applets@.take(i as int)),
        decreases manifest.applets@.len() - i,
    {
        let a = &manifest.applets[i];
        let ghost before = out@;
        assert(manifest.applets@.take(i + 1).drop_last() =~= manifest.applets@.take(i as int));
        if a.runtime.is_some() {
            let mut msg = owned("Applet '");
            msg.append(a.name.as_str());
            msg.append("' declares a runtime but mode is monolith. Per-applet runtime is only valid in microservices/serverless mode. Remove the runtime declaration or change the build mode.");
            out.push(ValidationIssue::warning("APPLET_RUNTIME_IN_MONOLITH", msg));
            assert(issue_views(out@) =~= issue_views(before).push(issue_views(out@).last()));
        }
        i = i + 1;
        assert(issue_views(out@) =~= runtime_in_monolith_issues(manifest.applets@.take(i as int)));
    }
    assert(manifest.applets@.take(manifest.applets@.len() as int) =~= manifest.applets@);
    out
}

// ── All rules ───────────────────────────────────────────────────────────────

/// Every finding of the pre-flight check: the findings of each rule, in
/// the order the rules run.
pub open spec fn spec_validate(m: Manifest, p: ScannedProject) -> Seq<IssueView> {
    spec_monolith_single_runtime(m)
        + spec_no_secrets_in_manifest(m)
        + spec_applet_paths_exist(m, p)
        + spec_frontend_serve_rules(m)
        + spec_serverless_frontend_deploy_target(m)
        + spec_applet_runtime_in_monolith(m)
}

/// Runs every rule and reports all findings at once, errors and warnings,
/// not only the first.
pub fn validate(manifest: &Manifest, project: &ScannedProject) -> (r: Vec<ValidationIssue>)
    ensures
        issue_views(r@) == spec_validate(*manifest, *project),
{
    let mut issues: Vec<ValidationIssue> = Vec::new();
    assert(issue_views(issues@) =~= Seq::<IssueView>::empty());
    append_issues(&mut issues, check_monolith_single_runtime(manifest));
    append_issues(&mut issues, check_no_secrets_in_manifest(manifest));
    append_issues(&mut issues, check_applet_paths_exist(manifest, project));
    append_issues(&mut issues, check_frontend_serve_rules(manifest));
    append_issues(&mut issues, check_serverless_frontend_deploy_target(manifest));
    append_issues(&mut issues, check_applet_runtime_in_monolith(manifest));
    issues
}

/// Some finding is an error.
pub open spec fn any_error(issues: Seq<IssueView>) -> bool {
    exists|i: int| 0 <= i < issues.len() && (#[trigger] issues[i]).severity == Severity::Error
}

/// Whether any of the findings is an error.
pub fn has_errors(issues: &[ValidationIssue]) -> (r: bool)
    ensures
        r == any_error(issue_views(issues@)),
{
    let ghost vs = issue_views(issues@);
    let mut i: usize = 0;
    while i < issues.len()
        invariant
            i <= issues@.len(),
            vs == issue_views(issues@),
            forall|j: int| 0 <= j < i ==> vs[j].severity != Severity::Error,
        decreases issues@.len() - i,
    {
        if issues[i].severity == Severity::Error {
            assert(vs[i as int].severity == Severity::Error);
            return true;
        }
        i = i + 1;
    }
    false
}

/// A manifest that declares no applets, frontends or tasks has no findings,
/// whatever its build mode and whatever the scan found.
pub proof fn law_bare_manifest_is_clean(m: Manifest, p: ScannedProject)
    requires
        m.applets@.len() == 0,
        m.frontends@.len() == 0,
        m.tasks@.len() == 0,
    ensures
        spec_validate(m, p).len() == 0,
{
}

/// Findings about runtimes come only in monolith mode, and only for applets
/// that declare a runtime; an applet that declares the build's own runtime
/// draws the warning and no error.
pub proof fn law_runtime_findings(m: Manifest)
    ensures
        m.build.mode != BuildMode::Monolith ==> spec_monolith_single_runtime(m).len() == 0
            && spec_applet_runtime_in_monolith(m).len() == 0,
        (forall|i: int| 0 <= i < m.applets@.len() ==> (#[trigger] m.applets@[i]).runtime is None
            || m.applets@[i].runtime == Some(m.build.runtime)) ==> spec_monolith_single_runtime(m).len() == 0,
{
    if m.build.mode == BuildMode::Monolith {
        lemma_no_mixed_runtime(m.applets@, m.build.runtime);
    }
}

/// A command that names a secret: it contains "SECRET", "PASSWORD" or "TOKEN".
spec fn names_secret(run: Seq<char>) -> bool {
    has_substring(run, "SECRET"@) || has_substring(run, "PASSWORD"@) || has_substring(run, "TOKEN"@)
}

/// The secret finding for task `i` is among the findings for `tasks`.
proof fn lemma_secret_task_found(tasks: Seq<(String, TaskConfig)>, i: int)
    requires
        0 <= i < tasks.len(),
        tasks[i].1.run matches Some(r) && names_secret(r@),
    ensures
        secret_issues(tasks).contains(IssueView {
            severity: Severity::Error,
            code: "SECRET_IN_MANIFEST"@,
            message: "Task '"@ + tasks[i].0@
                + "' run command may contain a secret. Use environment variables instead of hardcoding secrets."@,
        }),
    decreases tasks.len(),
{
    let prev = secret_issues(tasks.drop_last());
    let issue = IssueView {
        severity: Severity::Error,
        code: "SECRET_IN_MANIFEST"@,
        message: "Task '"@ + tasks[i].0@
            + "' run command may contain a secret. Use environment variables instead of hardcoding secrets."@,
    };
    if i == tasks.len() - 1 {
        assert(secret_issues(tasks)[prev.len() as int] == issue);
    } else {
        assert(tasks.drop_last()[i] == tasks[i]);
        lemma_secret_task_found(tasks.drop_last(), i);
        let j = choose|j: int| 0 <= j < prev.len() && prev[j] == issue;
        assert(secret_issues(tasks)[j] == issue);
    }
}

/// Every task whose run command contains "SECRET", "PASSWORD" or "TOKEN"
/// draws a SECRET_IN_MANIFEST error naming the task, whatever else the
/// manifest and the scan hold; a manifest none of whose task commands
/// contains one of them draws no such finding from that rule.
pub proof fn law_secret_in_task_is_reported(m: Manifest, p: ScannedProject, i: int)
    requires
        0 <= i < m.tasks@.len(),
    ensures
        (m.tasks@[i].1.run matches Some(r) && (has_substring(r@, "SECRET"@) || has_substring(r@, "PASSWORD"@)
            || has_substring(r@, "TOKEN"@))) ==> spec_validate(m, p).contains(IssueView {
            severity: Severity::Error,
            code: "SECRET_IN_MANIFEST"@,
            message: "Task '"@ + m.tasks@[i].0@
                + "' run command may contain a secret. Use environment variables instead of hardcoding secrets."@,
        }),
        (forall|k: int| 0 <= k < m.tasks@.len() ==> !(#[trigger] m.tasks@[k].1.run matches Some(r)
            && (has_substring(r@, "SECRET"@) || has_substring(r@, "PASSWORD"@) || has_substring(r@, "TOKEN"@))))
            ==> spec_no_secrets_in_manifest(m).len() == 0,
{
    let issue = IssueView {
        severity: Severity::Error,
        code: "SECRET_IN_MANIFEST"@,
        message: "Task '"@ + m.tasks@[i].0@
            + "' run command may contain a secret. Use environment variables instead of hardcoding secrets."@,
    };
    if m.tasks@[i].1.run matches Some(r) && names_secret(r@) {
        lemma_secret_task_found(m.tasks@, i);
        let s = secret_issues(m.tasks@);
        let j = choose|j: int| 0 <= j < s.len() && s[j] == issue;
        let a = spec_monolith_single_runtime(m);
        let v = spec_validate(m, p);
        assert(v[a.len() + j] == issue);
    }
    lemma_no_secret_found(m.tasks@);
}

proof fn lemma_no_secret_found(tasks: Seq<(String, TaskConfig)>)
    ensures
        (forall|k: int| 0 <= k < tasks.len() ==> !(#[trigger] tasks[k].1.run matches Some(r) && names_secret(r@)))
            ==> secret_issues(tasks).len() == 0,
    decreases tasks.len(),
{
    if tasks.len() > 0 {
        lemma_no_secret_found(tasks.drop_last());
        if forall|k: int| 0 <= k < tasks.len() ==> !(#[trigger] tasks[k].1.run matches Some(r) && names_secret(r@)) {
            assert forall|k: int| 0 <= k < tasks.drop_last().len() implies
                !(#[trigger] tasks.drop_last()[k].1.run matches Some(r) && names_secret(r@)) by {
                assert(tasks.drop_last()[k] == tasks[k]);
            }
            assert(tasks.last() == tasks[tasks.len() - 1]);
        }
    }
}

proof fn lemma_no_mixed_runtime(applets: Seq<AppletManifest>, rt: Runtime)
    ensures
        (forall|i: int| 0 <= i < applets.len() ==> (#[trigger] applets[i]).runtime is None
            || applets[i].runtime == Some(rt)) ==> mixed_runtime_issues(applets, rt).len() == 0,
    decreases applets.len(),
{
    if applets.len() > 0 {
        lemma_no_mixed_runtime(applets.drop_last(), rt);
        if forall|i: int| 0 <= i < applets.len() ==> (#[trigger] applets[i]).runtime is None
            || applets[i].runtime == Some(rt) {
            assert forall|i: int| 0 <= i < applets.drop_last().len() implies (#[trigger] applets.drop_last()[i]).runtime is None
                || applets.drop_last()[i].runtime == Some(rt) by {
                assert(applets.drop_last()[i] == applets[i]);
            }
            assert(applets.last() == applets[applets.len() - 1]);
        }
    }
}

} // verus!
