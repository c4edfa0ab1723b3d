use vstd::prelude::*;
use crate::auth::AuthRequirement;
use crate::text::{cat, owned};

verus! {

/// Per-applet settings from the manifest.
#[derive(Debug, Clone)]
pub struct AppletConfig {
    /// The applet's name; also its route prefix.
    pub name: String,
    /// Whether the applet runs as a persistent container in serverless mode.
    pub stateful: bool,
    /// The auth requirement its handlers inherit.
    pub default_auth: AuthRequirement,
    /// The guards its handlers inherit.
    pub default_guards: Vec<String>,
}

impl AppletConfig {
    /// A config named `name`: not stateful, auth required, no guards.
    pub fn new(name: &str) -> (r: Self)
        ensures
            r.name@ == name@,
            !r.stateful,
            r.default_auth == AuthRequirement::Required,
            r.default_guards@.len() == 0,
    {
        AppletConfig {
            name: owned(name),
            stateful: false,
            default_auth: AuthRequirement::Required,
            default_guards: Vec::new(),
        }
    }

    /// The same config with `stateful` set.
    pub fn stateful(self, stateful: bool) -> (r: Self)
        ensures
            r == (AppletConfig { stateful, ..self }),
    {
        let mut c = self;
        c.stateful = stateful;
        c
    }

    /// The same config with the default auth requirement set.
    pub fn default_auth(self, auth: AuthRequirement) -> (r: Self)
        ensures
            r == (AppletConfig { default_auth: auth, ..self }),
    {
        let mut c = self;
        c.default_auth = auth;
        c
    }

    /// The same config with the default guards replaced.
    pub fn default_guards(self, guards: Vec<String>) -> (r: Self)
        ensures
            r == (AppletConfig { default_guards: guards, ..self }),
    {
        let mut c = self;
        c.default_guards = guards;
        c
    }
}

/// The URL prefix an applet named `name` mounts at: "/" and the name.
pub open spec fn mount_prefix_of(name: Seq<char>) -> Seq<char> {
    "/"@ + name
}

/// The URL prefix an applet named `name` mounts at, e.g. "auth" gives "/auth".
pub fn mount_prefix(name: &str) -> (r: String)
    ensures
        r@ == mount_prefix_of(name@),
{
    cat("/", name)
}

} // verus!
