use vstd::prelude::*;
use crate::text::{str_eq, to_uppercase, uppercase, text_upper, is_ascii_text, ascii_uppercased, ascii_lowercased};

verus! {

/// The HTTP method a handler answers.
#[derive(Debug, Clone, Copy, PartialEq, Eq, Structural)]
pub enum HttpMethod {
    Get,
    Post,
    Put,
    Patch,
    Delete,
}

/// The method whose upper-case name is exactly `u`.
pub open spec fn method_named(u: Seq<char>) -> Option<HttpMethod> {
    if u == "GET"@ {
        Some(HttpMethod::Get)
    } else if u == "POST"@ {
        Some(HttpMethod::Post)
    } else if u == "PUT"@ {
        Some(HttpMethod::Put)
    } else if u == "PATCH"@ {
        Some(HttpMethod::Patch)
    } else if u == "DELETE"@ {
        Some(HttpMethod::Delete)
    } else {
        None
    }
}

impl HttpMethod {
    /// The upper-case name of the method.
    pub open spec fn name(self) -> Seq<char> {
        match self {
            HttpMethod::Get => "GET"@,
            HttpMethod::Post => "POST"@,
            HttpMethod::Put => "PUT"@,
            HttpMethod::Patch => "PATCH"@,
            HttpMethod::Delete => "DELETE"@,
        }
    }

    /// Parses a method name in any letter case: the name is upper-cased and
    /// then matched against the five method names.
    pub fn from_str(s: &str) -> (r: Option<Self>)
        ensures
            r == method_named(uppercase(s@)),
            r == method_named(text_upper(s@)),
    {
        let up = to_uppercase(s);
        let u = up.as_str();
        if str_eq(u, "GET") {
            Some(HttpMethod::Get)
        } else if str_eq(u, "POST") {
            Some(HttpMethod::Post)
        } else if str_eq(u, "PUT") {
            Some(HttpMethod::Put)
        } else if str_eq(u, "PATCH") {
            Some(HttpMethod::Patch)
        } else if str_eq(u, "DELETE") {
            Some(HttpMethod::Delete)
        } else {
            None
        }
    }

    /// The upper-case name used in generated code.
    pub fn as_str(&self) -> (r: &'static str)
        ensures
            r@ == self.name(),
    {
        match self {
            HttpMethod::Get => "GET",
            HttpMethod::Post => "POST",
            HttpMethod::Put => "PUT",
            HttpMethod::Patch => "PATCH",
            HttpMethod::Delete => "DELETE",
        }
    }
}

/// The name of every method is written in ASCII capitals (so upper-casing
/// keeps it) and parses back to that method: together with the contracts of
/// `as_str` and `from_str`, `from_str(m.as_str()) == Some(m)`. Its name in
/// small letters parses to the same method, e.g. "post" gives `Post`.
pub proof fn law_method_round_trip(m: HttpMethod)
    ensures
        text_upper(m.name()) == m.name(),
        method_named(m.name()) == Some(m),
        method_named(text_upper(ascii_lowercased(m.name()))) == Some(m),
{
    reveal_strlit("GET");
    reveal_strlit("POST");
    reveal_strlit("PUT");
    reveal_strlit("PATCH");
    reveal_strlit("DELETE");
    assert("GET"@[0] != "POST"@[0] && "GET"@[0] != "PUT"@[0] && "GET"@[0] != "PATCH"@[0]);
    assert("GET"@[0] != "DELETE"@[0] && "POST"@[1] != "PUT"@[1] && "POST"@[1] != "PATCH"@[1]);
    assert("POST"@[0] != "DELETE"@[0] && "PUT"@[1] != "PATCH"@[1] && "PUT"@[0] != "DELETE"@[0]);
    assert("PATCH"@[0] != "DELETE"@[0]);
    let n = m.name();
    assert(is_ascii_text(n));
    assert(ascii_uppercased(n) =~= n);
    let l = ascii_lowercased(n);
    assert(is_ascii_text(l));
    assert(ascii_uppercased(l) =~= n);
}

/// Method names that differ only in the case of ASCII letters parse to the
/// same method (or both to none).
pub proof fn law_method_ascii_case_insensitive(a: Seq<char>, b: Seq<char>)
    requires
        is_ascii_text(a),
        is_ascii_text(b),
        ascii_uppercased(a) == ascii_uppercased(b),
    ensures
        method_named(text_upper(a)) == method_named(text_upper(b)),
{
}

} // verus!
