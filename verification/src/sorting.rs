//! Stable sorting of records by a string key, in the order of `str`'s
//! `Ord` (lexicographic by code point), ascending or descending.
#![verifier::loop_isolation(false)]

use vstd::prelude::*;
use vstd::seq_lib::*;
use crate::text::{chars_of, compare_chars, lex_lt, lemma_lex_lt_irreflexive,
    lemma_lex_lt_total, lemma_lex_lt_transitive};

verus! {

/// A record that is sorted by a string key.
pub trait SortKey {
    /// The key's characters.
    spec fn key_view(&self) -> Seq<char>;

    /// The key.
    fn sort_key(&self) -> (r: &str)
        ensures
            r@ == self.key_view(),
    ;
}

impl SortKey for String {
    open spec fn key_view(&self) -> Seq<char> {
        self@
    }

    fn sort_key(&self) -> (r: &str) {
        self.as_str()
    }
}

impl SortKey for (String, Option<String>) {
    open spec fn key_view(&self) -> Seq<char> {
        self.0@
    }

    fn sort_key(&self) -> (r: &str) {
        self.0.as_str()
    }
}

/// `a` comes before `b`, or equals it, in the chosen direction.
pub open spec fn key_le(a: Seq<char>, b: Seq<char>, descending: bool) -> bool {
    if descending {
        !lex_lt(a, b)
    } else {
        !lex_lt(b, a)
    }
}

/// The keys of `s` never decrease in the chosen direction.
pub open spec fn sorted_by_key<T: SortKey>(s: Seq<T>, descending: bool) -> bool {
    forall|i: int, j: int|
        0 <= i < j < s.len() ==> key_le(#[trigger] s[i].key_view(), #[trigger] s[j].key_view(), descending)
}

proof fn lemma_key_le_total(a: Seq<char>, b: Seq<char>, descending: bool)
    ensures
        key_le(a, b, descending) || key_le(b, a, descending),
{
    lemma_lex_lt_total(a, b);
    if lex_lt(a, b) && lex_lt(b, a) {
        lemma_lex_lt_transitive(a, b, a);
        lemma_lex_lt_irreflexive(a);
    }
}

proof fn lemma_key_le_trans(a: Seq<char>, b: Seq<char>, c: Seq<char>, descending: bool)
    requires
        key_le(a, b, descending),
        key_le(b, c, descending),
    ensures
        key_le(a, c, descending),
{
    lemma_lex_lt_total(a, b);
    lemma_lex_lt_total(b, c);
    lemma_lex_lt_total(a, c);
    if descending {
        if lex_lt(a, c) {
            if a == b {
            } else if b == c {
            } else {
                lemma_lex_lt_transitive(c, b, a);
                lemma_lex_lt_transitive(a, c, a);
                lemma_lex_lt_irreflexive(a);
            }
        }
    } else {
        if lex_lt(c, a) {
            if a == b {
            } else if b == c {
            } else {
                lemma_lex_lt_transitive(a, b, c);
                lemma_lex_lt_transitive(a, c, a);
                lemma_lex_lt_irreflexive(a);
            }
        }
    }
}

/// Whether `x` must go after `y` when sorting: `y` comes strictly first.
fn goes_after<T: SortKey>(x: &T, y: &T, descending: bool) -> (r: bool)
    ensures
        r == !key_le(x.key_view(), y.key_view(), descending),
{
    let a = chars_of(x.sort_key());
    let b = chars_of(y.sort_key());
    let c = compare_chars(a.as_slice(), b.as_slice());
    if descending {
        c < 0
    } else {
        c > 0
    }
}

/// `v` sorted stably by key in the chosen direction.
pub fn sort_by_key<T: SortKey>(v: Vec<T>, descending: bool) -> (r: Vec<T>)
    ensures
        r@.to_multiset() == v@.to_multiset(),
        sorted_by_key(r@, descending),
{
    broadcast use group_to_multiset_ensures;

    let mut rest = v;
    let ghost all = rest@;
    let mut r: Vec<T> = Vec::new();
    let n = rest.len();
    // Take elements from the back of `rest` and insert them into `r`.
    while rest.len() > 0
        invariant
            rest@.len() + r@.len() == n,
            all.len() == n,
            rest@ == all.subrange(0, rest@.len() as int),
            r@.to_multiset() == all.subrange(rest@.len() as int, n as int).to_multiset(),
            sorted_by_key(r@, descending),
        decreases rest.len(),
    {
        let ghost before = r@;
        let ghost k = rest@.len() - 1;
        let x = rest.pop().unwrap();
        assert(x == all[k]);
        let mut p: usize = 0;
        while p < r.len() && goes_after(&x, &r[p], descending)
            invariant
                p <= r.len(),
                r@ == before,
                forall|q: int| 0 <= q < p ==> key_le(#[trigger] r@[q].key_view(), x.key_view(), descending),
            decreases r.len() - p,
        {
            proof {
                lemma_key_le_total(r@[p as int].key_view(), x.key_view(), descending);
            }
            p = p + 1;
        }
        r.insert(p, x);
        proof {
            let s = r@;
            assert(s == before.insert(p as int, x));
            assert forall|i: int, j: int| 0 <= i < j < s.len() implies key_le(
                #[trigger] s[i].key_view(),
                #[trigger] s[j].key_view(),
                descending,
            ) by {
                if i < p && j == p {
                } else if i < p && j > p {
                    assert(s[i] == before[i]);
                    assert(s[j] == before[j - 1]);
                } else if i == p && j > p {
                    assert(s[j] == before[j - 1]);
                    if j - 1 > p {
                        lemma_key_le_trans(
                            x.key_view(),
                            before[p as int].key_view(),
                            before[j - 1].key_view(),
                            descending,
                        );
                    }
                } else if j < p {
                    assert(s[i] == before[i]);
                    assert(s[j] == before[j]);
                } else {
                    assert(s[i] == before[i - 1]);
                    assert(s[j] == before[j - 1]);
                }
            }
            assert(all.subrange(k, n as int) =~= all.subrange(k + 1, n as int).insert(0, x));
        }
    }
    assert(all.subrange(0, n as int) =~= all);
    r
}

/// Sequences with the same elements keep having the same elements after
/// each element is mapped by `f`.
pub proof fn lemma_multiset_map<A, B>(a: Seq<A>, b: Seq<A>, f: spec_fn(A) -> B)
    requires
        a.to_multiset() == b.to_multiset(),
    ensures
        a.map_values(f).to_multiset() == b.map_values(f).to_multiset(),
    decreases a.len(),
{
    broadcast use group_to_multiset_ensures;

    if a.len() == 0 {
        assert(b.len() == a.len()) by {
            to_multiset_len(a);
            to_multiset_len(b);
        }
        assert(a.map_values(f) =~= b.map_values(f));
    } else {
        let x = a.last();
        let a1 = a.drop_last();
        assert(a =~= a1.push(x));
        to_multiset_build(a1, x);
        assert(b.to_multiset().count(x) > 0);
        to_multiset_contains(b, x);
        let k = choose|k: int| 0 <= k < b.len() && b[k] == x;
        let b1 = b.remove(k);
        to_multiset_remove(b, k);
        assert(a1.to_multiset() =~= b1.to_multiset());
        lemma_multiset_map(a1, b1, f);
        assert(a.map_values(f) =~= a1.map_values(f).push(f(x)));
        to_multiset_build(a1.map_values(f), f(x));
        assert(b =~= b1.insert(k, x));
        assert(b.map_values(f) =~= b1.map_values(f).insert(k, f(x)));
        to_multiset_insert(b1.map_values(f), k, f(x));
    }
}

} // verus!
