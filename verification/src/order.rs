use vstd::prelude::*;

verus! {

/// The order of `str`: lexicographic over the characters' code points (the
/// same as over their UTF-8 bytes).
pub open spec fn lex_le(a: Seq<char>, b: Seq<char>) -> bool
    decreases a.len(),
{
    if a.len() == 0 {
        true
    } else if b.len() == 0 {
        false
    } else if a[0] != b[0] {
        (a[0] as int) < (b[0] as int)
    } else {
        lex_le(a.drop_first(), b.drop_first())
    }
}

/// Any two strings are ordered one way or the other.
pub proof fn lemma_lex_total(a: Seq<char>, b: Seq<char>)
    ensures
        lex_le(a, b) || lex_le(b, a),
    decreases a.len(),
{
    if a.len() > 0 && b.len() > 0 {
        if a[0] == b[0] {
            lemma_lex_total(a.drop_first(), b.drop_first());
        } else {
            assert((a[0] as int) != (b[0] as int));
        }
    }
}

/// The order is transitive.
pub proof fn lemma_lex_trans(a: Seq<char>, b: Seq<char>, c: Seq<char>)
    requires
        lex_le(a, b),
        lex_le(b, c),
    ensures
        lex_le(a, c),
    decreases a.len(),
{
    if a.len() > 0 && b.len() > 0 && c.len() > 0 && a[0] == b[0] && b[0] == c[0] {
        lemma_lex_trans(a.drop_first(), b.drop_first(), c.drop_first());
    }
}

/// Every string comes no later than itself.
pub proof fn lemma_lex_refl(a: Seq<char>)
    ensures
        lex_le(a, a),
    decreases a.len(),
{
    if a.len() > 0 {
        lemma_lex_refl(a.drop_first());
    }
}

/// Whether `a` comes no later than `b` in the order of `str`.
pub fn str_le(a: &str, b: &str) -> (r: bool)
    ensures
        r == lex_le(a@, b@),
{
    let n = a.unicode_len();
    let m = b.unicode_len();
    let mut i: usize = 0;
    assert(a@.skip(0) =~= a@);
    assert(b@.skip(0) =~= b@);
    while i < n && i < m && a.get_char(i) == b.get_char(i)
        invariant
            n == a@.len(),
            m == b@.len(),
            i <= n,
            i <= m,
            lex_le(a@, b@) == lex_le(a@.skip(i as int), b@.skip(i as int)),
        decreases n - i,
    {
        assert(a@.skip(i as int).drop_first() =~= a@.skip(i + 1));
        assert(b@.skip(i as int).drop_first() =~= b@.skip(i + 1));
        i = i + 1;
    }
    if i == n {
        true
    } else if i == m {
        false
    } else {
        let x = a.get_char(i);
        let y = b.get_char(i);
        x < y
    }
}

/// A value sorted by a string key.
pub trait SortKey {
    /// The key the value is sorted by.
    spec fn sort_key(&self) -> Seq<char>;

    /// The key the value is sorted by.
    fn key(&self) -> (r: &str)
        ensures
            r@ == self.sort_key();
}

/// The keys of `s` never decrease.
pub open spec fn sorted_by_key<T: SortKey>(s: Seq<T>) -> bool {
    forall|i: int, j: int| 0 <= i < j < s.len() ==> lex_le(#[trigger] s[i].sort_key(), #[trigger] s[j].sort_key())
}

/// The test for a value whose key is `k`.
pub open spec fn has_key<T: SortKey>(k: Seq<char>) -> spec_fn(T) -> bool {
    |x: T| x.sort_key() == k
}

/// The values of `s` whose key is `k`, in their order in `s`.
pub open spec fn with_key<T: SortKey>(s: Seq<T>, k: Seq<char>) -> Seq<T> {
    s.filter(has_key::<T>(k))
}

/// Inserting `x` at `pos`, where no later value shares its key, adds `x`
/// at the end of its key's group and leaves the other groups alone.
pub proof fn lemma_insert_keeps_groups<T: SortKey>(s: Seq<T>, pos: int, x: T, k: Seq<char>)
    requires
        0 <= pos <= s.len(),
        forall|j: int| pos <= j < s.len() ==> (#[trigger] s[j]).sort_key() != x.sort_key(),
    ensures
        with_key(s.insert(pos, x), k) == if x.sort_key() == k {
            with_key(s, k).push(x)
        } else {
            with_key(s, k)
        },
{
    let p = has_key::<T>(k);
    let a = s.take(pos);
    let b = s.skip(pos);
    assert(s.insert(pos, x) =~= a + seq![x] + b);
    assert(s =~= a + b);
    Seq::filter_distributes_over_add(a + seq![x], b, p);
    Seq::filter_distributes_over_add(a, seq![x], p);
    Seq::filter_distributes_over_add(a, b, p);
    Seq::<T>::empty().lemma_filter_push(x, p);
    assert(Seq::<T>::empty().push(x) =~= seq![x]);
    assert(Seq::<T>::empty().filter(p) =~= Seq::<T>::empty()) by {
        reveal(Seq::filter);
    }
    if x.sort_key() == k {
        assert(b.all(|y: T| !p(y)));
        b.lemma_all_neg_filter_empty(p);
        assert(b.filter(p) =~= Seq::<T>::empty());
        assert(a.filter(p) + seq![x] + b.filter(p) =~= (a.filter(p) + b.filter(p)).push(x));
    } else {
        assert(a.filter(p) + Seq::<T>::empty() + b.filter(p) =~= a.filter(p) + b.filter(p));
    }
}

/// Sorts by key, as a stable `sort_by` comparing the keys with `cmp` does:
/// the result holds the same values, with keys that never decrease, and
/// values with equal keys keep their order.
pub fn sort_by_key<T: SortKey>(items: Vec<T>) -> (r: Vec<T>)
    ensures
        r@.to_multiset() == items@.to_multiset(),
        sorted_by_key(r@),
        forall|k: Seq<char>| #[trigger] with_key(r@, k) == with_key(items@, k),
{
    let mut rest = items;
    let mut out: Vec<T> = Vec::new();
    let ghost original = rest@;
    proof {
        broadcast use vstd::seq_lib::group_to_multiset_ensures;
        assert(out@.to_multiset() =~= vstd::multiset::Multiset::<T>::empty());
        assert(out@.to_multiset().add(rest@.to_multiset()) =~= original.to_multiset());
    }
    proof {
        assert forall|k: Seq<char>| #[trigger] with_key(original, k) == with_key(out@, k) + with_key(rest@, k) by {
            assert(out@ =~= Seq::<T>::empty());
            assert(Seq::<T>::empty().filter(has_key::<T>(k)) =~= Seq::<T>::empty()) by {
                reveal(Seq::filter);
            }
            assert(Seq::<T>::empty() + with_key(rest@, k) =~= with_key(rest@, k));
        }
    }
    while rest.len() > 0
        invariant
            out@.to_multiset().add(rest@.to_multiset()) == original.to_multiset(),
            sorted_by_key(out@),
            forall|k: Seq<char>| #[trigger] with_key(original, k) == with_key(out@, k) + with_key(rest@, k),
        decreases rest.len(),
    {
        let ghost before_rest = rest@;
        let ghost before_out = out@;
        let x = rest.remove(0);
        proof {
            vstd::seq_lib::to_multiset_remove(before_rest, 0);
            assert(rest@ == before_rest.remove(0));
        }
        let mut pos: usize = out.len();
        while pos > 0 && !str_le(out[pos - 1].key(), x.key())
            invariant
                pos <= out@.len(),
                out@ == before_out,
                forall|j: int| pos <= j < out@.len() ==> !lex_le(#[trigger] out@[j].sort_key(), x.sort_key()),
            decreases pos,
        {
            pos = pos - 1;
        }
        let ghost s = out@;
        out.insert(pos, x);
        proof {
            vstd::seq_lib::to_multiset_insert(s, pos as int, x);
            assert(out@ == s.insert(pos as int, x));
            assert(before_rest.to_multiset().remove(x).insert(x) =~= before_rest.to_multiset()) by {
                broadcast use vstd::multiset::group_multiset_axioms;
                assert(before_rest.to_multiset().contains(x)) by {
                    broadcast use vstd::seq_lib::group_to_multiset_ensures;
                    assert(before_rest.contains(x)) by { assert(before_rest[0] == x); }
                }
            }
            assert(out@.to_multiset().add(rest@.to_multiset()) =~= original.to_multiset()) by {
                broadcast use vstd::multiset::group_multiset_axioms;
            }
            assert forall|j: int| pos <= j < s.len() implies (#[trigger] s[j]).sort_key() != x.sort_key() by {
                lemma_lex_refl(x.sort_key());
            }
            assert(before_rest =~= seq![x] + rest@);
            assert forall|k: Seq<char>| #[trigger] with_key(original, k) == with_key(out@, k) + with_key(rest@, k) by {
                lemma_insert_keeps_groups(s, pos as int, x, k);
                rest@.lemma_filter_prepend(x, has_key::<T>(k));
                if x.sort_key() == k {
                    assert(with_key(s, k).push(x) + with_key(rest@, k) =~= with_key(s, k) + (seq![x] + with_key(rest@, k)));
                } else {
                    assert(Seq::<T>::empty() + with_key(rest@, k) =~= with_key(rest@, k));
                }
            }
            assert forall|i: int, j: int| 0 <= i < j < out@.len() implies lex_le(#[trigger] out@[i].sort_key(), #[trigger] out@[j].sort_key()) by {
                if j < pos {
                    assert(out@[i] == s[i] && out@[j] == s[j]);
                } else if j == pos {
                    // s[pos - 1] <= x, and everything before it is <= s[pos - 1]
                    assert(out@[j] == x);
                    assert(out@[i] == s[i]);
                    if i < pos - 1 {
                        lemma_lex_trans(s[i].sort_key(), s[pos - 1].sort_key(), x.sort_key());
                    }
                } else if i == pos {
                    assert(out@[j] == s[j - 1]);
                    lemma_lex_total(s[j - 1].sort_key(), x.sort_key());
                } else if i > pos {
                    assert(out@[i] == s[i - 1] && out@[j] == s[j - 1]);
                } else {
                    // i < pos < j: s[i] <= x <= s[j - 1]
                    assert(out@[i] == s[i] && out@[j] == s[j - 1]);
                    assert(out@[pos as int] == x);
                    lemma_lex_total(s[j - 1].sort_key(), x.sort_key());
                    if i < pos - 1 {
                        lemma_lex_trans(s[i].sort_key(), s[pos - 1].sort_key(), x.sort_key());
                    }
                    lemma_lex_trans(s[i].sort_key(), x.sort_key(), s[j - 1].sort_key());
                }
            }
        }
    }
    proof {
        assert(rest@ =~= Seq::<T>::empty());
        assert forall|k: Seq<char>| #[trigger] with_key(out@, k) == with_key(items@, k) by {
            assert(Seq::<T>::empty().filter(has_key::<T>(k)) =~= Seq::<T>::empty()) by {
                reveal(Seq::filter);
            }
            assert(with_key(out@, k) + Seq::<T>::empty() =~= with_key(out@, k));
        }
    }
    out
}

} // verus!
