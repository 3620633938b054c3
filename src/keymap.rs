//! A map keyed by byte strings, as the key-value records of a PSBT are.
//!
//! Entries are kept sorted by key in lexicographic byte order, each key once, so that equal
//! maps list their entries alike.
use vstd::prelude::*;

use crate::bytes::{bytes_eq, bytes_lt, copy_bytes, lemma_lex_irreflexive, lemma_lex_total, lemma_lex_transitive, lex_lt};

verus! {

broadcast use crate::bytes::lemma_bytes_deep_view, crate::bytes::lemma_array_deep_view;

/// `s` lists exactly the pairs of `m`, each key once.
pub open spec fn lists_map<V: DeepView>(s: Seq<(Vec<u8>, V)>, m: Map<Seq<u8>, V::V>) -> bool {
    &&& forall|i: int, j: int| 0 <= i < j < s.len() ==> (#[trigger] s[i]).0@ != (#[trigger] s[j]).0@
    &&& forall|i: int|
        0 <= i < s.len() ==> m.contains_key((#[trigger] s[i]).0@) && m[s[i].0@] == s[i].1.deep_view()
    &&& forall|k: Seq<u8>| #[trigger] m.contains_key(k) ==> exists|i: int| 0 <= i < s.len() && s[i].0@ == k
}

/// The keys of `s` rise strictly in lexicographic order.
pub open spec fn keys_sorted<V>(s: Seq<(Vec<u8>, V)>) -> bool {
    forall|i: int, j: int| 0 <= i < j < s.len() ==> lex_lt((#[trigger] s[i]).0@, (#[trigger] s[j]).0@)
}

/// A finite map from byte-string keys to values.
pub struct KeyMap<V: DeepView> {
    entries: Vec<(Vec<u8>, V)>,
    contents: Ghost<Map<Seq<u8>, V::V>>,
}

impl<V: DeepView> View for KeyMap<V> {
    type V = Map<Seq<u8>, V::V>;

    closed spec fn view(&self) -> Map<Seq<u8>, V::V> {
        self.contents@
    }
}

impl<V: DeepView> KeyMap<V> {
    #[verifier::type_invariant]
    spec fn inv(&self) -> bool {
        lists_map(self.entries@, self.contents@) && keys_sorted(self.entries@)
    }

    /// The empty map.
    pub fn new() -> (r: Self)
        ensures
            r@ == Map::<Seq<u8>, V::V>::empty(),
    {
        KeyMap { entries: Vec::new(), contents: Ghost(Map::empty()) }
    }

    /// Position of `k` among the entries, if it is there.
    fn find(&self, k: &[u8]) -> (r: Option<usize>)
        ensures
            match r {
                Some(i) => i < self.entries@.len() && self.entries@[i as int].0@ == k@,
                None => !self@.contains_key(k@),
            },
    {
        proof {
            use_type_invariant(self);
        }
        let mut i: usize = 0;
        while i < self.entries.len()
            invariant
                0 <= i <= self.entries@.len(),
                forall|j: int| 0 <= j < i ==> self.entries@[j].0@ != k@,
            decreases self.entries@.len() - i,
        {
            if bytes_eq(self.entries[i].0.as_slice(), k) {
                return Some(i);
            }
            i = i + 1;
        }
        None
    }

    /// Whether `k` has a value.
    pub fn contains_key(&self, k: &[u8]) -> (r: bool)
        ensures
            r == self@.contains_key(k@),
    {
        proof {
            use_type_invariant(self);
        }
        self.find(k).is_some()
    }

    /// The value of `k`, if it has one.
    pub fn get(&self, k: &[u8]) -> (r: Option<&V>)
        ensures
            match r {
                Some(v) => self@.contains_key(k@) && v.deep_view() == self@[k@],
                None => !self@.contains_key(k@),
            },
    {
        proof {
            use_type_invariant(self);
        }
        match self.find(k) {
            Some(i) => Some(&self.entries[i].1),
            None => None,
        }
    }

    /// Whether the map has no entry.
    pub fn is_empty(&self) -> (r: bool)
        ensures
            r == (self@ == Map::<Seq<u8>, V::V>::empty()),
    {
        proof {
            use_type_invariant(self);
        }
        if self.entries.len() == 0 {
            assert(self@ =~= Map::<Seq<u8>, V::V>::empty());
            true
        } else {
            assert(self@.contains_key(self.entries@[0].0@));
            false
        }
    }

    /// The number of entries.
    pub fn len(&self) -> (r: usize)
        ensures
            r == self@.dom().len(),
    {
        proof {
            use_type_invariant(self);
            lemma_listed_len(self.entries@, self@);
        }
        self.entries.len()
    }

    /// Sets the value of `k` to `v`, replacing any value it had.
    pub fn insert(&mut self, k: Vec<u8>, v: V)
        ensures
            final(self)@ == old(self)@.insert(k@, v.deep_view()),
    {
        proof {
            use_type_invariant(&*self);
        }
        let ghost new_contents = self@.insert(k@, v.deep_view());
        let mut this = KeyMap::new();
        std::mem::swap(self, &mut this);
        proof {
            use_type_invariant(&this);
        }
        let ghost old_entries = this.entries@;
        let ghost old_map = this.contents@;
        let mut entries = this.entries;
        let mut p: usize = 0;
        while p < entries.len() && bytes_lt(entries[p].0.as_slice(), k.as_slice())
            invariant
                entries@ == old_entries,
                0 <= p <= entries@.len(),
                forall|j: int| 0 <= j < p ==> lex_lt((#[trigger] old_entries[j]).0@, k@),
            decreases entries@.len() - p,
        {
            p = p + 1;
        }
        if p < entries.len() && bytes_eq(entries[p].0.as_slice(), k.as_slice()) {
            entries.set(p, (k, v));
            assert forall|i: int, j: int| 0 <= i < j < entries@.len() implies lex_lt(
                (#[trigger] entries@[i]).0@,
                (#[trigger] entries@[j]).0@,
            ) by {
                assert(lex_lt(old_entries[i].0@, old_entries[j].0@));
            }
            assert forall|m: Seq<u8>| #[trigger] new_contents.contains_key(m) implies exists|j: int|
                0 <= j < entries@.len() && entries@[j].0@ == m by {
                if m != entries@[p as int].0@ {
                    let j = choose|j: int| 0 <= j < old_entries.len() && old_entries[j].0@ == m;
                    assert(entries@[j].0@ == m);
                }
            }
        } else {
            proof {
                if p < old_entries.len() {
                    lemma_lex_total(old_entries[p as int].0@, k@);
                }
                assert forall|j: int| 0 <= j < old_entries.len() implies (#[trigger] old_entries[j]).0@ != k@ by {
                    if j < p {
                        lemma_lex_irreflexive(k@);
                    } else {
                        if j > p {
                            lemma_lex_transitive(k@, old_entries[p as int].0@, old_entries[j].0@);
                        }
                        lemma_lex_irreflexive(k@);
                    }
                }
            }
            entries.insert(p, (k, v));
            assert(entries@ == old_entries.insert(p as int, (k, v)));
            assert forall|i: int, j: int| 0 <= i < j < entries@.len() implies lex_lt(
                (#[trigger] entries@[i]).0@,
                (#[trigger] entries@[j]).0@,
            ) by {
                if j < p {
                    assert(lex_lt(old_entries[i].0@, old_entries[j].0@));
                } else if j == p {
                } else if i < p {
                    assert(lex_lt(old_entries[i].0@, old_entries[j - 1].0@));
                } else if i == p {
                    if j - 1 > p {
                        lemma_lex_transitive(k@, old_entries[p as int].0@, old_entries[j - 1].0@);
                    }
                } else {
                    assert(lex_lt(old_entries[i - 1].0@, old_entries[j - 1].0@));
                }
            }
            assert forall|i: int, j: int| 0 <= i < j < entries@.len() implies (#[trigger] entries@[i]).0@
                != (#[trigger] entries@[j]).0@ by {
                lemma_lex_irreflexive(entries@[i].0@);
            }
            assert forall|i: int| 0 <= i < entries@.len() implies new_contents.contains_key((#[trigger] entries@[i]).0@)
                && new_contents[entries@[i].0@] == entries@[i].1.deep_view() by {
                if i < p {
                    assert(entries@[i] == old_entries[i]);
                } else if i > p {
                    assert(entries@[i] == old_entries[i - 1]);
                }
            }
            assert forall|m: Seq<u8>| #[trigger] new_contents.contains_key(m) implies exists|j: int|
                0 <= j < entries@.len() && entries@[j].0@ == m by {
                if m != k@ {
                    let j = choose|j: int| 0 <= j < old_entries.len() && old_entries[j].0@ == m;
                    if j < p {
                        assert(entries@[j].0@ == m);
                    } else {
                        assert(entries@[j + 1].0@ == m);
                    }
                } else {
                    assert(entries@[p as int].0@ == m);
                }
            }
        }
        *self = KeyMap { entries, contents: Ghost(new_contents) };
    }

    /// Adds the entries of `other` whose keys are not in `self`; entries already in `self` stay.
    pub fn extend_missing(&mut self, other: KeyMap<V>)
        ensures
            final(self)@ == other@.union_prefer_right(old(self)@),
    {
        proof {
            use_type_invariant(&other);
        }
        let ghost start = self@;
        let ghost theirs = other.entries@;
        let ghost other_map = other@;
        let mut rest = other.entries;
        let ghost mut i: int = 0;
        while rest.len() > 0
            invariant
                0 <= i <= theirs.len(),
                lists_map(theirs, other_map),
                forall|k: Seq<u8>|
                    #[trigger] self@.contains_key(k) <==> (start.contains_key(k) || exists|j: int|
                        0 <= j < i && theirs[j].0@ == k),
                forall|k: Seq<u8>| #[trigger] start.contains_key(k) ==> self@[k] == start[k],
                forall|j: int|
                    0 <= j < i && !start.contains_key(#[trigger] theirs[j].0@) ==> self@[theirs[j].0@]
                        == theirs[j].1.deep_view(),
                rest@ == theirs.subrange(i, theirs.len() as int),
            decreases rest@.len(),
        {
            let (k, v) = rest.remove(0);
            assert(theirs[i] == (k, v));
            if !self.contains_key(k.as_slice()) {
                self.insert(k, v);
            }
            proof {
                i = i + 1;
            }
        }
        assert(self@ =~= other_map.union_prefer_right(start)) by {
            assert forall|k: Seq<u8>| #[trigger] other_map.contains_key(k) implies self@.contains_key(k) by {
                let j = choose|j: int| 0 <= j < theirs.len() && theirs[j].0@ == k;
            }
            assert forall|k: Seq<u8>| #[trigger] self@.contains_key(k) && !start.contains_key(k) implies
                other_map.contains_key(k) && self@[k] == other_map[k] by {
                let j = choose|j: int| 0 <= j < i && theirs[j].0@ == k;
            }
        }
    }

    /// The map of `entries`; where a key repeats, its last value wins.
    pub fn from_entries(entries: Vec<(Vec<u8>, V)>) -> (r: Self)
        ensures
            forall|k: Seq<u8>| #[trigger] r@.contains_key(k) <==> exists|i: int| 0 <= i < entries@.len() && entries@[i].0@ == k,
            forall|i: int|
                0 <= i < entries@.len() && (forall|j: int| i < j < entries@.len() ==> entries@[j].0@ != (#[trigger] entries@[i]).0@)
                    ==> r@[entries@[i].0@] == entries@[i].1.deep_view(),
    {
        let ghost all = entries@;
        let mut rest = entries;
        let mut r = KeyMap::new();
        let ghost mut n: int = 0;
        while rest.len() > 0
            invariant
                0 <= n <= all.len(),
                rest@ == all.subrange(n, all.len() as int),
                forall|k: Seq<u8>| #[trigger] r@.contains_key(k) <==> exists|i: int| 0 <= i < n && all[i].0@ == k,
                forall|i: int|
                    0 <= i < n && (forall|j: int| i < j < n ==> all[j].0@ != (#[trigger] all[i]).0@) ==> r@[all[i].0@]
                        == all[i].1.deep_view(),
            decreases rest@.len(),
        {
            let (k, v) = rest.remove(0);
            assert(all[n] == (k, v));
            r.insert(k, v);
            proof {
                n = n + 1;
            }
        }
        r
    }

    /// The entries, each key once, in increasing key order.
    pub fn into_entries(self) -> (r: Vec<(Vec<u8>, V)>)
        ensures
            lists_map(r@, self@),
            keys_sorted(r@),
    {
        proof {
            use_type_invariant(&self);
        }
        self.entries
    }

    /// The entries, each key once, in increasing key order.
    pub fn entries(&self) -> (r: &Vec<(Vec<u8>, V)>)
        ensures
            lists_map(r@, self@),
            keys_sorted(r@),
    {
        proof {
            use_type_invariant(self);
        }
        &self.entries
    }
}

/// A listing of a map has as many entries as the map has keys.
proof fn lemma_listed_len<V: DeepView>(s: Seq<(Vec<u8>, V)>, m: Map<Seq<u8>, V::V>)
    requires
        lists_map(s, m),
    ensures
        m.dom().finite(),
        m.dom().len() == s.len(),
    decreases s.len(),
{
    if s.len() == 0 {
        assert(m.dom() =~= Set::empty());
    } else {
        let last = s.last();
        let s2 = s.drop_last();
        let m2 = m.remove(last.0@);
        assert forall|k: Seq<u8>| #[trigger] m2.contains_key(k) implies exists|i: int|
            0 <= i < s2.len() && s2[i].0@ == k by {
            let i = choose|i: int| 0 <= i < s.len() && s[i].0@ == k;
            assert(i != s.len() - 1);
            assert(s2[i].0@ == k);
        }
        assert forall|i: int, j: int| 0 <= i < j < s2.len() implies (#[trigger] s2[i]).0@ != (
        #[trigger] s2[j]).0@ by {
            assert(s2[i] == s[i] && s2[j] == s[j]);
        }
        assert forall|i: int| 0 <= i < s2.len() implies m2.contains_key((#[trigger] s2[i]).0@)
            && m2[s2[i].0@] == s2[i].1.deep_view() by {
            assert(s2[i] == s[i]);
            assert(s[i].0@ != s[s.len() - 1].0@);
        }
        lemma_listed_len(s2, m2);
        assert(m.dom() =~= m2.dom().insert(last.0@));
    }
}

} // verus!

verus! {

/// The value of `a` where it has one, else that of `b`.
pub open spec fn prefer_first<T>(a: Option<T>, b: Option<T>) -> Option<T> {
    if a is Some {
        a
    } else {
        b
    }
}

/// Where both hold a value, they hold the same one.
pub open spec fn options_agree<T>(a: Option<T>, b: Option<T>) -> bool {
    (a is Some && b is Some) ==> a == b
}

/// Every key of both maps has the same value in each.
pub open spec fn maps_agree<K, V>(a: Map<K, V>, b: Map<K, V>) -> bool {
    forall|k: K| #[trigger] a.contains_key(k) && b.contains_key(k) ==> a[k] == b[k]
}

/// Merging in either order gives the same map when the two agree.
pub proof fn lemma_union_commutes<K, V>(a: Map<K, V>, b: Map<K, V>)
    requires
        maps_agree(a, b),
    ensures
        b.union_prefer_right(a) == a.union_prefer_right(b),
{
    assert(b.union_prefer_right(a) =~= a.union_prefer_right(b));
}

/// Merging a map with itself gives it back.
pub proof fn lemma_union_self<K, V>(a: Map<K, V>)
    ensures
        a.union_prefer_right(a) == a,
{
    assert(a.union_prefer_right(a) =~= a);
}

impl KeyMap<Vec<u8>> {
    /// A copy of this map.
    pub fn duplicate(&self) -> (r: Self)
        ensures
            r@ == self@,
    {
        let entries = self.entries();
        let mut r: KeyMap<Vec<u8>> = KeyMap::new();
        let mut i: usize = 0;
        while i < entries.len()
            invariant
                0 <= i <= entries@.len(),
                lists_map(entries@, self@),
                forall|j: int|
                    0 <= j < i ==> r@.contains_key((#[trigger] entries@[j]).0@) && r@[entries@[j].0@]
                        == entries@[j].1.deep_view(),
                forall|k: Seq<u8>| #[trigger] r@.contains_key(k) ==> exists|j: int| 0 <= j < i && entries@[j].0@ == k,
            decreases entries@.len() - i,
        {
            let k = copy_bytes(&entries[i].0);
            let v = copy_bytes(&entries[i].1);
            assert(v.deep_view() =~= entries@[i as int].1.deep_view());
            r.insert(k, v);
            i = i + 1;
        }
        assert(r@ =~= self@) by {
            assert forall|k: Seq<u8>| #[trigger] self@.contains_key(k) implies r@.contains_key(k) by {
                let j = choose|j: int| 0 <= j < entries@.len() && entries@[j].0@ == k;
            }
        }
        r
    }
}

} // verus!
