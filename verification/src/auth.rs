use vstd::prelude::*;

verus! {

/// Who may call a handler. The default is `Required`: a route is never
/// exposed by accident, handlers opt down explicitly.
#[derive(Debug, Clone, Copy, PartialEq, Eq, Structural)]
pub enum AuthRequirement {
    /// A verified identity must be present, otherwise the request is refused.
    Required,
    /// No identity is looked at; the handler always sees none.
    Public,
    /// The identity is passed on when there is one.
    Optional,
}

impl Default for AuthRequirement {
    fn default() -> (r: Self)
        ensures
            r == AuthRequirement::Required,
    {
        AuthRequirement::Required
    }
}

#[verifier::external_type_specification]
#[verifier::external_body]
pub struct ExJsonValue(serde_json::Value);

/// `serde_json::Value` derives `Clone`; the copy is a value equal to the original.
pub assume_specification[ <serde_json::Value as Clone>::clone ](v: &serde_json::Value) -> (res: serde_json::Value)
    ensures
        res == *v,
;

/// The verified identity that authentication hands to a request.
#[derive(Debug, Clone)]
pub struct UserClaims {
    pub user_id: String,
    pub tenant_id: Option<String>,
    pub roles: Vec<String>,
    /// The raw claims, carried through untouched.
    pub raw: serde_json::Value,
}

impl UserClaims {
    /// The roles as character sequences.
    pub open spec fn role_views(&self) -> Seq<Seq<char>> {
        self.roles@.map_values(|r: String| r@)
    }

    /// True exactly when one of the user's roles equals `role`.
    pub fn has_role(&self, role: &str) -> (r: bool)
        ensures
            r == self.role_views().contains(role@),
    {
        let mut i: usize = 0;
        while i < self.roles.len()
            invariant
                i <= self.roles.len(),
                forall|j: int| 0 <= j < i ==> self.roles@[j]@ != role@,
            decreases self.roles.len() - i,
        {
            if crate::text::str_eq(self.roles[i].as_str(), role) {
                assert(self.role_views()[i as int] == role@);
                return true;
            }
            i = i + 1;
        }
        proof {
            if self.role_views().contains(role@) {
                let k = choose|k: int| 0 <= k < self.role_views().len() && self.role_views()[k] == role@;
                assert(self.roles@[k]@ == role@);
            }
        }
        false
    }
}

} // verus!
