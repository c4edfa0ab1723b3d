use vstd::prelude::*;
use crate::context::StringMap;
use crate::text::{find_char, split_char, slice};

verus! {

/// The key of a `key=value` pair: everything before the first `=`, or the
/// whole pair when it has none.
pub open spec fn pair_key(p: Seq<char>) -> Seq<char> {
    match find_char(p, '=') {
        Some(i) => p.take(i as int),
        None => p,
    }
}

/// The value of a `key=value` pair: everything after the first `=`, or the
/// empty string when it has none.
pub open spec fn pair_value(p: Seq<char>) -> Seq<char> {
    match find_char(p, '=') {
        Some(i) => p.skip(i as int + 1),
        None => Seq::empty(),
    }
}

/// The map a list of pairs gives: pairs with an empty key are skipped and a
/// later pair replaces an earlier one with the same key.
pub open spec fn pairs_map(ps: Seq<Seq<char>>) -> Map<Seq<char>, Seq<char>>
    decreases ps.len(),
{
    if ps.len() == 0 {
        Map::empty()
    } else {
        let m = pairs_map(ps.drop_last());
        let p = ps.last();
        if pair_key(p).len() == 0 {
            m
        } else {
            m.insert(pair_key(p), pair_value(p))
        }
    }
}

/// The parameters of a query string: its `&`-separated pairs, read as above.
pub open spec fn query_map(q: Seq<char>) -> Map<Seq<char>, Seq<char>> {
    pairs_map(split_char(q, '&'))
}

/// `find_char` finds the first occurrence.
pub proof fn lemma_find_char(s: Seq<char>, c: char)
    ensures
        match find_char(s, c) {
            Some(i) => i < s.len() && s[i as int] == c && forall|j: int| 0 <= j < i ==> s[j] != c,
            None => forall|j: int| 0 <= j < s.len() ==> s[j] != c,
        },
    decreases s.len(),
{
    if s.len() > 0 && s[0] != c {
        lemma_find_char(s.drop_first(), c);
        match find_char(s.drop_first(), c) {
            Some(i) => {
                assert forall|j: int| 0 <= j < i + 1 implies s[j] != c by {
                    if j > 0 {
                        assert(s[j] == s.drop_first()[j - 1]);
                    }
                }
            },
            None => {
                assert forall|j: int| 0 <= j < s.len() implies s[j] != c by {
                    if j > 0 {
                        assert(s[j] == s.drop_first()[j - 1]);
                    }
                }
            },
        }
    }
}

/// The first `i` characters of `s` hold no `c` and `s[i]` is `c`: then the
/// first `c` is at `i`.
proof fn lemma_find_char_at(s: Seq<char>, c: char, i: int)
    requires
        0 <= i < s.len(),
        s[i] == c,
        forall|j: int| 0 <= j < i ==> s[j] != c,
    ensures
        find_char(s, c) == Some(i as nat),
{
    lemma_find_char(s, c);
}

/// Splits one `key=value` pair at its first `=`.
pub fn split_pair(p: &str) -> (r: (String, String))
    ensures
        r.0@ == pair_key(p@),
        r.1@ == pair_value(p@),
{
    let n = p.unicode_len();
    let mut i: usize = 0;
    while i < n
        invariant
            n == p@.len(),
            i <= n,
            forall|j: int| 0 <= j < i ==> p@[j] != '=',
        decreases n - i,
    {
        if p.get_char(i) == '=' {
            proof {
                lemma_find_char_at(p@, '=', i as int);
            }
            return (slice(p, 0, i), slice(p, i + 1, n));
        }
        i = i + 1;
    }
    proof {
        lemma_find_char(p@, '=');
        match find_char(p@, '=') {
            Some(k) => {
                assert(p@[k as int] == '=');
            },
            None => {},
        }
        assert(p@.subrange(0, n as int) =~= p@);
    }
    (slice(p, 0, n), String::new())
}

/// Reads the parameters of a query string (the part of a URI after `?`):
/// the `&`-separated pairs are split at their first `=`, a pair without `=`
/// has an empty value, pairs with an empty key are skipped, and a later pair
/// replaces an earlier one with the same key.
pub fn parse_query(q: &str) -> (r: StringMap)
    ensures
        r@ == query_map(q@),
{
    let n = q.unicode_len();
    let mut m = StringMap::new();
    let mut start: usize = 0;
    let mut i: usize = 0;
    assert(q@.take(0) =~= Seq::<char>::empty());
    assert(q@.subrange(0, 0) =~= Seq::<char>::empty());
    while i < n
        invariant
            n == q@.len(),
            start <= i <= n,
            m@ == pairs_map(split_char(q@.take(i as int), '&').drop_last()),
            split_char(q@.take(i as int), '&').len() > 0,
            split_char(q@.take(i as int), '&').last() == q@.subrange(start as int, i as int),
        decreases n - i,
    {
        let ghost prev = split_char(q@.take(i as int), '&');
        assert(q@.take(i + 1).drop_last() =~= q@.take(i as int));
        assert(q@.take(i + 1).last() == q@[i as int]);
        if q.get_char(i) == '&' {
            let piece = slice(q, start, i);
            let (k, v) = split_pair(piece.as_str());
            proof {
                assert(split_char(q@.take(i + 1), '&') == prev.push(Seq::<char>::empty()));
                assert(split_char(q@.take(i + 1), '&').drop_last() =~= prev);
                assert(prev =~= prev.drop_last().push(prev.last()));
            }
            if k.unicode_len() != 0 {
                m.insert(k, v);
            }
            start = i + 1;
            i = i + 1;
            assert(q@.subrange(start as int, i as int) =~= Seq::<char>::empty());
        } else {
            proof {
                let next = split_char(q@.take(i + 1), '&');
                assert(next == prev.update(prev.len() - 1, prev.last().push(q@[i as int])));
                assert(next.drop_last() =~= prev.drop_last());
                assert(q@.subrange(start as int, i + 1) =~= q@.subrange(start as int, i as int).push(q@[i as int]));
            }
            i = i + 1;
        }
    }
    let piece = slice(q, start, n);
    let (k, v) = split_pair(piece.as_str());
    proof {
        let all = split_char(q@, '&');
        assert(q@.take(n as int) =~= q@);
        assert(all =~= all.drop_last().push(all.last()));
    }
    if k.unicode_len() != 0 {
        m.insert(k, v);
    }
    m
}

} // verus!
