use vstd::prelude::*;
use crate::auth::UserClaims;
use crate::text::{str_eq, owned, to_lowercase, lowercase, text_lower, is_ascii_text, ascii_lowercased};

verus! {

/// The map that a list of key/value entries stands for when later entries
/// replace earlier ones with the same key.
pub open spec fn entries_map(s: Seq<(String, String)>) -> Map<Seq<char>, Seq<char>>
    decreases s.len(),
{
    if s.len() == 0 {
        Map::empty()
    } else {
        entries_map(s.drop_last()).insert(s.last().0@, s.last().1@)
    }
}

/// The value stored under `k`, if any.
pub open spec fn lookup(m: Map<Seq<char>, Seq<char>>, k: Seq<char>) -> Option<Seq<char>> {
    if m.contains_key(k) {
        Some(m[k])
    } else {
        None
    }
}

/// The characters of an optional string slice.
pub open spec fn opt_str_view(o: Option<&str>) -> Option<Seq<char>> {
    match o {
        Some(s) => Some(s@),
        None => None,
    }
}

/// A map from strings to strings, as request parameters and headers are held.
/// Inserting a key that is already present replaces its value.
#[derive(Debug, Clone)]
pub struct StringMap {
    entries: Vec<(String, String)>,
}

impl View for StringMap {
    type V = Map<Seq<char>, Seq<char>>;

    closed spec fn view(&self) -> Map<Seq<char>, Seq<char>> {
        entries_map(self.entries@)
    }
}

/// Entries after position `i` that do not hold key `k` leave what the map
/// says of `k` as the first `i` entries say it.
proof fn lemma_entries_tail(s: Seq<(String, String)>, i: int, k: Seq<char>)
    requires
        0 <= i <= s.len(),
        forall|j: int| i <= j < s.len() ==> (#[trigger] s[j]).0@ != k,
    ensures
        lookup(entries_map(s), k) == lookup(entries_map(s.take(i)), k),
    decreases s.len(),
{
    if i < s.len() {
        lemma_entries_tail(s.drop_last(), i, k);
        assert(s.drop_last().take(i) =~= s.take(i));
    } else {
        assert(s.take(i) =~= s);
    }
}

impl StringMap {
    /// An empty map.
    pub fn new() -> (m: Self)
        ensures
            m@ == Map::<Seq<char>, Seq<char>>::empty(),
    {
        StringMap { entries: Vec::new() }
    }

    /// Stores `value` under `key`, replacing any earlier value.
    pub fn insert(&mut self, key: String, value: String)
        ensures
            final(self)@ == old(self)@.insert(key@, value@),
    {
        let ghost before = self.entries@;
        self.entries.push((key, value));
        assert(self.entries@.drop_last() =~= before);
    }

    /// The value stored under `key`.
    pub fn get(&self, key: &str) -> (r: Option<&str>)
        ensures
            opt_str_view(r) == lookup(self@, key@),
    {
        let mut i: usize = self.entries.len();
        proof {
            assert(self.entries@.take(i as int) =~= self.entries@);
        }
        while i > 0
            invariant
                i <= self.entries@.len(),
                forall|j: int| i <= j < self.entries@.len() ==> (#[trigger] self.entries@[j]).0@ != key@,
            decreases i,
        {
            if str_eq(self.entries[i - 1].0.as_str(), key) {
                proof {
                    lemma_entries_tail(self.entries@, i as int, key@);
                    assert(self.entries@.take(i as int).drop_last() =~= self.entries@.take(i - 1));
                }
                return Some(self.entries[i - 1].1.as_str());
            }
            i = i - 1;
        }
        proof {
            lemma_entries_tail(self.entries@, 0, key@);
            assert(self.entries@.take(0) =~= Seq::<(String, String)>::empty());
        }
        None
    }
}

/// Database access; a placeholder until a pool is wired in.
#[derive(Debug, Default)]
pub struct DbContext;

/// Message queue access; a placeholder.
#[derive(Debug, Default)]
pub struct QueueContext;

/// File storage access; a placeholder.
#[derive(Debug, Default)]
pub struct StorageContext;

/// Cache access; a placeholder.
#[derive(Debug, Default)]
pub struct CacheContext;

/// Read-only facts about the incoming request.
#[derive(Debug, Clone)]
pub struct RequestInfo {
    /// The method, e.g. "GET".
    pub method: String,
    /// The full request path.
    pub path: String,
    /// Path parameters by name.
    pub params: StringMap,
    /// Query-string parameters by name.
    pub query: StringMap,
    /// Headers, keyed by lower-case name.
    pub headers: StringMap,
    /// The raw request body.
    pub body: Vec<u8>,
}

impl RequestInfo {
    /// The path parameter called `name`.
    pub fn param(&self, name: &str) -> (r: Option<&str>)
        ensures
            opt_str_view(r) == lookup(self.params@, name@),
    {
        self.params.get(name)
    }

    /// The query parameter called `name`.
    pub fn query(&self, name: &str) -> (r: Option<&str>)
        ensures
            opt_str_view(r) == lookup(self.query@, name@),
    {
        self.query.get(name)
    }

    /// The header called `name`, looked up by its lower-case form.
    pub fn header(&self, name: &str) -> (r: Option<&str>)
        ensures
            opt_str_view(r) == lookup(self.headers@, lowercase(name@)),
            opt_str_view(r) == lookup(self.headers@, text_lower(name@)),
    {
        let lower = to_lowercase(name);
        self.headers.get(lower.as_str())
    }
}

/// The headers map built from the request's (name, value) pairs in order:
/// each name lower-cased, a later value replacing an earlier one, and a
/// value that is not text (`None`) left out.
pub open spec fn header_map(pairs: Seq<(String, Option<String>)>) -> Map<Seq<char>, Seq<char>>
    decreases pairs.len(),
{
    if pairs.len() == 0 {
        Map::empty()
    } else {
        let m = header_map(pairs.drop_last());
        match pairs.last().1 {
            Some(v) => m.insert(text_lower(pairs.last().0@), v@),
            None => m,
        }
    }
}

/// Builds the request's header map from its (name, value) pairs, as
/// `header_map` says.
pub fn headers_from_pairs(pairs: &Vec<(String, Option<String>)>) -> (r: StringMap)
    ensures
        r@ == header_map(pairs@),
{
    let mut headers = StringMap::new();
    let mut i: usize = 0;
    while i < pairs.len()
        invariant
            i <= pairs@.len(),
            headers@ == header_map(pairs@.take(i as int)),
        decreases pairs@.len() - i,
    {
        assert(pairs@.take(i + 1).drop_last() =~= pairs@.take(i as int));
        assert(pairs@.take(i + 1).last() == pairs@[i as int]);
        match &pairs[i].1 {
            Some(v) => {
                let name = to_lowercase(pairs[i].0.as_str());
                headers.insert(name, owned(v.as_str()));
            },
            None => {},
        }
        i = i + 1;
    }
    assert(pairs@.take(pairs@.len() as int) =~= pairs@);
    headers
}

/// Header names that differ only in the case of ASCII letters find the
/// same header: e.g. "Content-Type" and "CONTENT-TYPE".
pub proof fn law_header_ascii_case_insensitive(headers: Map<Seq<char>, Seq<char>>, a: Seq<char>, b: Seq<char>)
    requires
        is_ascii_text(a),
        is_ascii_text(b),
        ascii_lowercased(a) == ascii_lowercased(b),
    ensures
        lookup(headers, text_lower(a)) == lookup(headers, text_lower(b)),
{
}

/// What every handler is given: the plugin contexts, the request and the
/// verified identity, if any.
#[derive(Debug)]
pub struct AppletContext {
    pub db: DbContext,
    pub queue: QueueContext,
    pub storage: StorageContext,
    pub cache: CacheContext,
    pub request: RequestInfo,
    pub user: Option<UserClaims>,
}

/// A read gives back what the last write under the same key wrote, and a
/// write leaves every other key as it was.
pub proof fn law_read_after_write(m: Map<Seq<char>, Seq<char>>, k: Seq<char>, v: Seq<char>, other: Seq<char>)
    requires
        other != k,
    ensures
        lookup(m.insert(k, v), k) == Some(v),
        lookup(m.insert(k, v), other) == lookup(m, other),
{
}

} // verus!
