//! A map keyed by strings, held as a list of entries with distinct keys
//! and viewed as a mathematical `Map` from the keys' characters to the
//! values' views.

use vstd::prelude::*;
use crate::text::{chars_of, is_prefix, starts_with_chars, str_eq};

verus! {

/// A value that can be copied with its view kept.
pub trait Duplicate: View + Sized {
    /// A copy with the same view.
    fn duplicate(&self) -> (r: Self)
        ensures
            r@ == self@,
    ;
}

impl Duplicate for String {
    fn duplicate(&self) -> (r: Self) {
        self.clone()
    }
}

impl Duplicate for Vec<String> {
    fn duplicate(&self) -> (r: Self) {
        let mut r: Vec<String> = Vec::new();
        let mut i: usize = 0;
        while i < self.len()
            invariant
                i <= self.len(),
                r@ == self@.subrange(0, i as int),
            decreases self.len() - i,
        {
            r.push(self[i].clone());
            i = i + 1;
            assert(r@ =~= self@.subrange(0, i as int));
        }
        assert(r@ =~= self@);
        r
    }
}

/// A finite map from string keys to values.
///
/// Entries are kept in insertion order; no key occurs twice.
pub struct KeyedMap<V: Duplicate> {
    entries: Vec<(String, V)>,
}

/// A map from strings to strings.
pub type StringMap = KeyedMap<String>;

/// Whether entry `i` of `s` has the key `k`.
pub open spec fn has_key_at<V: View>(s: Seq<(String, V)>, i: int, k: Seq<char>) -> bool {
    0 <= i < s.len() && s[i].0@ == k
}

/// No key occurs twice among the entries `s`.
pub open spec fn keys_distinct<V: View>(s: Seq<(String, V)>) -> bool {
    forall|i: int, j: int|
        0 <= i < s.len() && 0 <= j < s.len() && #[trigger] s[i].0@ == #[trigger] s[j].0@ ==> i
            == j
}

/// The map the entries `s` stand for.
pub open spec fn entries_map<V: View>(s: Seq<(String, V)>) -> Map<Seq<char>, V::V> {
    Map::new(
        |k: Seq<char>| exists|i: int| has_key_at(s, i, k),
        |k: Seq<char>| s[choose|i: int| has_key_at(s, i, k)].1@,
    )
}

/// The path `k` is `p` or lies under it: `p` is a prefix of `k` that ends
/// at a `/` of either.
pub open spec fn lies_under(p: Seq<char>, k: Seq<char>) -> bool {
    &&& is_prefix(p, k)
    &&& k.len() == p.len() || (p.len() > 0 && p.last() == '/') || k[p.len() as int] == '/'
}

/// `m` without the keys that are the path `p` or lie under it.
pub open spec fn without_under<V>(m: Map<Seq<char>, V>, p: Seq<char>) -> Map<Seq<char>, V> {
    m.restrict(m.dom().filter(|k: Seq<char>| !lies_under(p, k)))
}

/// With distinct keys, the entry at `i` is what the map holds for its key.
pub proof fn lemma_entry_in_map<V: View>(s: Seq<(String, V)>, i: int)
    requires
        keys_distinct(s),
        0 <= i < s.len(),
    ensures
        entries_map(s).contains_key(s[i].0@),
        entries_map(s)[s[i].0@] == s[i].1@,
{
    let k = s[i].0@;
    assert(has_key_at(s, i, k));
    let j = choose|j: int| has_key_at(s, j, k);
    assert(s[j].0@ == s[i].0@);
}

impl<V: Duplicate> KeyedMap<V> {
    /// The mathematical map this value stands for.
    pub closed spec fn view(&self) -> Map<Seq<char>, V::V> {
        entries_map(self.entries@)
    }

    /// The entries in insertion order.
    pub closed spec fn entry_seq(&self) -> Seq<(String, V)> {
        self.entries@
    }

    /// No key occurs twice.
    #[verifier::type_invariant]
    spec fn wf(&self) -> bool {
        keys_distinct(self.entries@)
    }

    /// An empty map.
    pub fn new() -> (r: Self)
        ensures
            r@ == Map::<Seq<char>, V::V>::empty(),
            r.entry_seq().len() == 0,
    {
        let r = KeyedMap { entries: Vec::new() };
        assert(r@ =~= Map::<Seq<char>, V::V>::empty());
        r
    }

    /// The position of the entry with key `k`, if there is one.
    fn position(&self, k: &str) -> (r: Option<usize>)
        ensures
            match r {
                Some(i) => has_key_at(self.entries@, i as int, k@),
                None => !self@.contains_key(k@),
            },
    {
        proof {
            use_type_invariant(self);
        }
        let mut i: usize = 0;
        while i < self.entries.len()
            invariant
                i <= self.entries.len(),
                forall|j: int| 0 <= j < i ==> self.entries@[j].0@ != k@,
            decreases self.entries.len() - i,
        {
            if str_eq(self.entries[i].0.as_str(), k) {
                return Some(i);
            }
            i = i + 1;
        }
        assert(!self@.contains_key(k@)) by {
            if self@.contains_key(k@) {
                let j = choose|j: int| has_key_at(self.entries@, j, k@);
                assert(has_key_at(self.entries@, j, k@));
            }
        }
        None
    }

    /// The value stored under `k`.
    pub fn get(&self, k: &str) -> (r: Option<&V>)
        ensures
            match r {
                Some(v) => self@.contains_key(k@) && self@[k@] == v@,
                None => !self@.contains_key(k@),
            },
    {
        proof {
            use_type_invariant(self);
        }
        match self.position(k) {
            Some(i) => {
                proof {
                    lemma_entry_in_map(self.entries@, i as int);
                }
                Some(&self.entries[i].1)
            },
            None => None,
        }
    }

    /// Whether a value is stored under `k`.
    pub fn contains_key(&self, k: &str) -> (r: bool)
        ensures
            r == self@.contains_key(k@),
    {
        proof {
            use_type_invariant(self);
        }
        match self.position(k) {
            Some(i) => {
                proof {
                    lemma_entry_in_map(self.entries@, i as int);
                }
                true
            },
            None => false,
        }
    }

    /// The number of entries.
    pub fn len(&self) -> (r: usize)
        ensures
            r == self@.len(),
    {
        proof {
            use_type_invariant(self);
        }
        proof {
            lemma_dom_len(self.entries@);
        }
        self.entries.len()
    }

    /// Stores `v` under `k`, replacing what was stored there.
    pub fn insert(&mut self, k: String, v: V)
        ensures
            final(self)@ == old(self)@.insert(k@, v@),
    {
        proof {
            use_type_invariant(&*self);
        }
        let ghost k_view = k@;
        let ghost v_view = v@;
        let ghost before = self.entries@;
        let pos = self.position(k.as_str());
        let mut entries: Vec<(String, V)> = Vec::new();
        std::mem::swap(&mut entries, &mut self.entries);
        match pos {
            Some(i) => {
                entries.set(i, (k, v));
                proof {
                    lemma_update_map(before, i as int, k_view, v_view, entries@);
                }
            },
            None => {
                entries.push((k, v));
                proof {
                    lemma_push_map(before, k_view, v_view, entries@);
                }
            },
        }
        self.entries = entries;
    }

    /// Removes the entry with key `k`, if there is one.
    pub fn remove(&mut self, k: &str)
        ensures
            final(self)@ == old(self)@.remove(k@),
    {
        proof {
            use_type_invariant(&*self);
        }
        let ghost before = self.entries@;
        match self.position(k) {
            Some(i) => {
                let mut entries: Vec<(String, V)> = Vec::new();
                std::mem::swap(&mut entries, &mut self.entries);
                entries.remove(i);
                proof {
                    lemma_remove_map(before, i as int, entries@);
                }
                self.entries = entries;
            },
            None => {
                assert(self@ =~= entries_map(before).remove(k@));
            },
        }
    }

    /// A copy of this map.
    pub fn duplicate(&self) -> (r: Self)
        ensures
            r@ == self@,
    {
        proof {
            use_type_invariant(self);
        }
        let ghost s = self.entries@;
        let mut entries: Vec<(String, V)> = Vec::new();
        let mut i: usize = 0;
        while i < self.entries.len()
            invariant
                i <= self.entries.len(),
                s == self.entries@,
                entries@.len() == i,
                forall|j: int|
                    0 <= j < i ==> (#[trigger] entries@[j]).0 == s[j].0 && entries@[j].1@ == s[j].1@,
            decreases self.entries.len() - i,
        {
            let e = (self.entries[i].0.clone(), self.entries[i].1.duplicate());
            entries.push(e);
            i = i + 1;
        }
        let ghost t = entries@;
        proof {
            assert forall|k: Seq<char>, j: int| has_key_at(t, j, k) <==> has_key_at(s, j, k) by {
                if 0 <= j < t.len() {
                    assert(t[j].0 == s[j].0);
                }
            }
            assert(keys_distinct(t)) by {
                assert forall|a: int, b: int|
                    0 <= a < t.len() && 0 <= b < t.len() && #[trigger] t[a].0@ == #[trigger] t[b].0@
                    implies a == b by {
                    assert(t[a].0 == s[a].0);
                    assert(t[b].0 == s[b].0);
                }
            }
            assert forall|k: Seq<char>| #[trigger] entries_map(t).contains_key(k) implies entries_map(t)[k]
                == entries_map(s)[k] by {
                let a = choose|j: int| has_key_at(t, j, k);
                assert(has_key_at(t, a, k));
                let b = choose|j: int| has_key_at(s, j, k);
                assert(has_key_at(s, a, k));
                assert(has_key_at(s, b, k));
                assert(t[a].1@ == s[a].1@);
            }
            assert(entries_map(t) =~= entries_map(s));
        }
        KeyedMap { entries }
    }

    /// Removes every entry whose key is the path `p` or lies under it.
    pub fn remove_under(&mut self, p: &str)
        ensures
            final(self)@ == without_under(old(self)@, p@),
    {
        proof {
            use_type_invariant(&*self);
        }
        let ghost s = self.entries@;
        let pc = chars_of(p);
        let mut kept: Vec<(String, V)> = Vec::new();
        let mut old_entries: Vec<(String, V)> = Vec::new();
        std::mem::swap(&mut old_entries, &mut self.entries);
        let mut i: usize = 0;
        while i < old_entries.len()
            invariant
                i <= old_entries.len(),
                old_entries@ == s,
                keys_distinct(s),
                pc@ == p@,
                keys_distinct(kept@),
                forall|k: Seq<char>|
                    #![trigger entries_map(kept@).contains_key(k)]
                    entries_map(kept@).contains_key(k) <==> (!lies_under(p@, k) && exists|j: int|
                        0 <= j < i && has_key_at(s, j, k)),
                forall|k: Seq<char>|
                    #![trigger entries_map(kept@).contains_key(k)]
                    entries_map(kept@).contains_key(k) ==> entries_map(kept@)[k] == entries_map(s)[k],
            decreases old_entries.len() - i,
        {
            let kc = chars_of(old_entries[i].0.as_str());
            let under = starts_with_chars(kc.as_slice(), pc.as_slice()) && (kc.len() == pc.len() || (pc.len()
                > 0 && pc[pc.len() - 1] == '/') || kc[pc.len()] == '/');
            if !under {
                let ghost before = kept@;
                let e = (old_entries[i].0.clone(), old_entries[i].1.duplicate());
                let ghost k = e.0@;
                proof {
                    assert(!entries_map(before).contains_key(k)) by {
                        if entries_map(before).contains_key(k) {
                            let j = choose|j: int| 0 <= j < i && has_key_at(s, j, k);
                            assert(has_key_at(s, j, k));
                            assert(s[j].0@ == s[i as int].0@);
                        }
                    }
                }
                kept.push(e);
                proof {
                    lemma_push_map(before, k, s[i as int].1@, kept@);
                    lemma_entry_in_map(s, i as int);
                    assert forall|x: Seq<char>|
                        #![trigger entries_map(kept@).contains_key(x)]
                        entries_map(kept@).contains_key(x) <==> (!lies_under(p@, x) && exists|j: int|
                            0 <= j < i + 1 && has_key_at(s, j, x)) by {
                        if x == k {
                            assert(has_key_at(s, i as int, x));
                        } else if exists|j: int| 0 <= j < i + 1 && has_key_at(s, j, x) {
                            let j = choose|j: int| 0 <= j < i + 1 && has_key_at(s, j, x);
                            assert(j != i);
                        }
                    }
                }
            } else {
                proof {
                    assert forall|x: Seq<char>|
                        #![trigger entries_map(kept@).contains_key(x)]
                        entries_map(kept@).contains_key(x) <==> (!lies_under(p@, x) && exists|j: int|
                            0 <= j < i + 1 && has_key_at(s, j, x)) by {
                        if !lies_under(p@, x) && exists|j: int| 0 <= j < i + 1 && has_key_at(s, j, x) {
                            let j = choose|j: int| 0 <= j < i + 1 && has_key_at(s, j, x);
                            if j == i {
                                assert(s[i as int].0@ == x);
                            } else {
                                assert(0 <= j < i && has_key_at(s, j, x));
                            }
                        }
                    }
                }
            }
            i = i + 1;
        }
        proof {
            let m = without_under(entries_map(s), p@);
            assert forall|x: Seq<char>| #[trigger] entries_map(kept@).contains_key(x) <==> m.contains_key(x) by {
                if m.contains_key(x) {
                    let j = choose|j: int| has_key_at(s, j, x);
                    assert(has_key_at(s, j, x));
                    assert(0 <= j < i && has_key_at(s, j, x));
                }
            }
            assert(entries_map(kept@) =~= m);
        }
        self.entries = kept;
    }

    /// The keys, in insertion order.
    pub fn keys(&self) -> (r: Vec<String>)
        ensures
            r@.len() == self.entry_seq().len(),
            forall|i: int| 0 <= i < r@.len() ==> #[trigger] r@[i] == self.entry_seq()[i].0,
    {
        proof {
            use_type_invariant(self);
        }
        let mut r: Vec<String> = Vec::new();
        let mut i: usize = 0;
        while i < self.entries.len()
            invariant
                i <= self.entries.len(),
                r@.len() == i,
                forall|j: int| 0 <= j < i ==> #[trigger] r@[j] == self.entries@[j].0,
            decreases self.entries.len() - i,
        {
            r.push(self.entries[i].0.clone());
            i = i + 1;
        }
        r
    }
}

/// The map of entries with distinct keys has as many keys as entries.
pub proof fn lemma_dom_len<V: View>(s: Seq<(String, V)>)
    requires
        keys_distinct(s),
    ensures
        entries_map(s).dom().finite(),
        entries_map(s).dom().len() == s.len(),
    decreases s.len(),
{
    if s.len() == 0 {
        assert(entries_map(s).dom() =~= Set::<Seq<char>>::empty());
    } else {
        let t = s.drop_last();
        let k = s.last().0@;
        assert(keys_distinct(t)) by {
            assert forall|i: int, j: int|
                0 <= i < t.len() && 0 <= j < t.len() && #[trigger] t[i].0@ == #[trigger] t[j].0@
                implies i == j by {
                assert(s[i].0@ == s[j].0@);
            }
        }
        lemma_dom_len(t);
        assert(!entries_map(t).dom().contains(k)) by {
            if entries_map(t).dom().contains(k) {
                let i = choose|i: int| has_key_at(t, i, k);
                assert(has_key_at(t, i, k));
                assert(s[i].0@ == s[s.len() - 1].0@);
            }
        }
        assert(entries_map(s).dom() =~= entries_map(t).dom().insert(k)) by {
            assert forall|x: Seq<char>| entries_map(s).dom().contains(x) implies entries_map(
                t,
            ).dom().insert(k).contains(x) by {
                let i = choose|i: int| has_key_at(s, i, x);
                assert(has_key_at(s, i, x));
                if i < s.len() - 1 {
                    assert(has_key_at(t, i, x));
                }
            }
            assert forall|x: Seq<char>| entries_map(t).dom().insert(k).contains(x) implies entries_map(
                s,
            ).dom().contains(x) by {
                if x == k {
                    assert(has_key_at(s, s.len() - 1, x));
                } else {
                    let i = choose|i: int| has_key_at(t, i, x);
                    assert(has_key_at(t, i, x));
                    assert(has_key_at(s, i, x));
                }
            }
        }
    }
}

proof fn lemma_update_map<V: View>(
    before: Seq<(String, V)>,
    i: int,
    k: Seq<char>,
    v: V::V,
    after: Seq<(String, V)>,
)
    requires
        keys_distinct(before),
        has_key_at(before, i, k),
        after.len() == before.len(),
        after[i].0@ == k,
        after[i].1@ == v,
        forall|j: int| 0 <= j < before.len() && j != i ==> after[j] == before[j],
    ensures
        keys_distinct(after),
        entries_map(after) == entries_map(before).insert(k, v),
{
    assert(keys_distinct(after)) by {
        assert forall|a: int, b: int|
            0 <= a < after.len() && 0 <= b < after.len() && #[trigger] after[a].0@
                == #[trigger] after[b].0@ implies a == b by {
            assert(after[a].0@ == before[a].0@);
            assert(after[b].0@ == before[b].0@);
            assert(before[a].0@ == before[b].0@);
        }
    }
    let m = entries_map(before).insert(k, v);
    assert forall|x: Seq<char>| #[trigger] entries_map(after).contains_key(x) <==> m.contains_key(
        x,
    ) by {
        if entries_map(after).contains_key(x) {
            let j = choose|j: int| has_key_at(after, j, x);
            assert(has_key_at(after, j, x));
            if j != i {
                assert(has_key_at(before, j, x));
            }
        }
        if m.contains_key(x) && x != k {
            let j = choose|j: int| has_key_at(before, j, x);
            assert(has_key_at(before, j, x));
            assert(has_key_at(after, j, x));
        }
        if x == k {
            assert(has_key_at(after, i, x));
        }
    }
    assert forall|x: Seq<char>| #[trigger] entries_map(after).contains_key(x) implies entries_map(
        after,
    )[x] == m[x] by {
        let j = choose|j: int| has_key_at(after, j, x);
        assert(has_key_at(after, j, x));
        lemma_entry_in_map(after, j);
        if x != k {
            assert(has_key_at(before, j, x));
            lemma_entry_in_map(before, j);
        }
    }
    assert(entries_map(after) =~= m);
}

proof fn lemma_push_map<V: View>(
    before: Seq<(String, V)>,
    k: Seq<char>,
    v: V::V,
    after: Seq<(String, V)>,
)
    requires
        keys_distinct(before),
        !entries_map(before).contains_key(k),
        after.len() == before.len() + 1,
        after[before.len() as int].0@ == k,
        after[before.len() as int].1@ == v,
        forall|j: int| 0 <= j < before.len() ==> after[j] == before[j],
    ensures
        keys_distinct(after),
        entries_map(after) == entries_map(before).insert(k, v),
{
    let n = before.len() as int;
    assert(keys_distinct(after)) by {
        assert forall|a: int, b: int|
            0 <= a < after.len() && 0 <= b < after.len() && #[trigger] after[a].0@
                == #[trigger] after[b].0@ implies a == b by {
            if a < n && b < n {
                assert(before[a].0@ == before[b].0@);
            } else if a < n {
                assert(has_key_at(before, a, k));
            } else if b < n {
                assert(has_key_at(before, b, k));
            }
        }
    }
    let m = entries_map(before).insert(k, v);
    assert forall|x: Seq<char>| #[trigger] entries_map(after).contains_key(x) <==> m.contains_key(
        x,
    ) by {
        if entries_map(after).contains_key(x) {
            let j = choose|j: int| has_key_at(after, j, x);
            assert(has_key_at(after, j, x));
            if j < n {
                assert(has_key_at(before, j, x));
            }
        }
        if m.contains_key(x) && x != k {
            let j = choose|j: int| has_key_at(before, j, x);
            assert(has_key_at(before, j, x));
            assert(has_key_at(after, j, x));
        }
        if x == k {
            assert(has_key_at(after, n, x));
        }
    }
    assert forall|x: Seq<char>| #[trigger] entries_map(after).contains_key(x) implies entries_map(
        after,
    )[x] == m[x] by {
        let j = choose|j: int| has_key_at(after, j, x);
        assert(has_key_at(after, j, x));
        lemma_entry_in_map(after, j);
        if x != k {
            assert(j < n);
            assert(has_key_at(before, j, x));
            lemma_entry_in_map(before, j);
        }
    }
    assert(entries_map(after) =~= m);
}

proof fn lemma_remove_map<V: View>(before: Seq<(String, V)>, i: int, after: Seq<(String, V)>)
    requires
        keys_distinct(before),
        0 <= i < before.len(),
        after == before.remove(i),
    ensures
        keys_distinct(after),
        entries_map(after) == entries_map(before).remove(before[i].0@),
{
    let k = before[i].0@;
    let idx = |j: int| if j < i { j } else { j + 1 };
    assert forall|j: int| 0 <= j < after.len() implies #[trigger] after[j] == before[idx(j)] by {}
    assert(keys_distinct(after)) by {
        assert forall|a: int, b: int|
            0 <= a < after.len() && 0 <= b < after.len() && #[trigger] after[a].0@
                == #[trigger] after[b].0@ implies a == b by {
            assert(after[a] == before[idx(a)]);
            assert(after[b] == before[idx(b)]);
            assert(before[idx(a)].0@ == before[idx(b)].0@);
        }
    }
    let m = entries_map(before).remove(k);
    assert forall|x: Seq<char>| #[trigger] entries_map(after).contains_key(x) <==> m.contains_key(
        x,
    ) by {
        if entries_map(after).contains_key(x) {
            let j = choose|j: int| has_key_at(after, j, x);
            assert(has_key_at(after, j, x));
            assert(after[j] == before[idx(j)]);
            assert(has_key_at(before, idx(j), x));
            assert(x != k);
        }
        if m.contains_key(x) {
            let j = choose|j: int| has_key_at(before, j, x);
            assert(has_key_at(before, j, x));
            assert(j != i);
            if j < i {
                assert(after[j] == before[j]);
                assert(has_key_at(after, j, x));
            } else {
                assert(after[j - 1] == before[j]);
                assert(has_key_at(after, j - 1, x));
            }
        }
    }
    assert forall|x: Seq<char>| #[trigger] entries_map(after).contains_key(x) implies entries_map(
        after,
    )[x] == m[x] by {
        let j = choose|j: int| has_key_at(after, j, x);
        assert(has_key_at(after, j, x));
        lemma_entry_in_map(after, j);
        assert(after[j] == before[idx(j)]);
        assert(has_key_at(before, idx(j), x));
        lemma_entry_in_map(before, idx(j));
    }
    assert(entries_map(after) =~= m);
}

} // verus!
