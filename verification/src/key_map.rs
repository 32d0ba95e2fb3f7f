//! A finite map from identifiers to values, kept as a list of entries whose
//! keys are pairwise distinct.
use vstd::prelude::*;
use crate::ids::MapKey;

verus! {

/// No two entries share a key.
pub open spec fn keys_unique<K, V>(s: Seq<(K, V)>) -> bool {
    forall|i: int, j: int|
        0 <= i < s.len() && 0 <= j < s.len() && #[trigger] s[i].0 == #[trigger] s[j].0 ==> i == j
}

/// Some entry has key `k`.
pub open spec fn has_key<K, V>(s: Seq<(K, V)>, k: K) -> bool {
    exists|i: int| 0 <= i < s.len() && #[trigger] s[i].0 == k
}

/// The map that a list of entries stands for.
pub open spec fn entries_map<K, V>(s: Seq<(K, V)>) -> Map<K, V> {
    Map::new(
        |k: K| has_key(s, k),
        |k: K| s[choose|i: int| 0 <= i < s.len() && #[trigger] s[i].0 == k].1,
    )
}

/// With distinct keys, the map holds each entry's value under its key.
pub proof fn lemma_entry_in_map<K, V>(s: Seq<(K, V)>, i: int)
    requires
        keys_unique(s),
        0 <= i < s.len(),
    ensures
        entries_map(s).contains_key(s[i].0),
        entries_map(s)[s[i].0] == s[i].1,
{
    let k = s[i].0;
    assert(has_key(s, k));
    let j = choose|j: int| 0 <= j < s.len() && #[trigger] s[j].0 == k;
    assert(s[j].0 == s[i].0);
}

/// Removing the entry at `i` removes its key from the map.
pub proof fn lemma_remove_entry<K, V>(s: Seq<(K, V)>, i: int)
    requires
        keys_unique(s),
        0 <= i < s.len(),
    ensures
        keys_unique(s.remove(i)),
        entries_map(s.remove(i)) == entries_map(s).remove(s[i].0),
{
    let t = s.remove(i);
    let k0 = s[i].0;
    assert forall|a: int, b: int|
        0 <= a < t.len() && 0 <= b < t.len() && #[trigger] t[a].0 == #[trigger] t[b].0 implies a == b by {
        let a2 = if a < i { a } else { a + 1 };
        let b2 = if b < i { b } else { b + 1 };
        assert(t[a] == s[a2]);
        assert(t[b] == s[b2]);
        assert(s[a2].0 == s[b2].0);
    }
    let m = entries_map(s).remove(k0);
    assert forall|k: K| #[trigger] has_key(t, k) <==> m.contains_key(k) by {
        if has_key(t, k) {
            let a = choose|a: int| 0 <= a < t.len() && #[trigger] t[a].0 == k;
            let a2 = if a < i { a } else { a + 1 };
            assert(t[a] == s[a2]);
            assert(s[a2].0 == k);
            assert(has_key(s, k));
            if k == k0 {
                assert(s[a2].0 == s[i].0);
            }
        }
        if m.contains_key(k) {
            assert(has_key(s, k));
            let b = choose|b: int| 0 <= b < s.len() && #[trigger] s[b].0 == k;
            assert(b != i);
            let b2 = if b < i { b } else { b - 1 };
            assert(t[b2] == s[b]);
            assert(t[b2].0 == k);
        }
    }
    assert forall|k: K| #[trigger] m.contains_key(k) implies entries_map(t)[k] == m[k] by {
        assert(has_key(t, k));
        let a = choose|a: int| 0 <= a < t.len() && #[trigger] t[a].0 == k;
        let a2 = if a < i { a } else { a + 1 };
        assert(t[a] == s[a2]);
        lemma_entry_in_map(t, a);
        lemma_entry_in_map(s, a2);
    }
    assert(entries_map(t) =~= m);
}

/// Appending an entry whose key is absent adds it to the map.
pub proof fn lemma_push_entry<K, V>(s: Seq<(K, V)>, k: K, v: V)
    requires
        keys_unique(s),
        !has_key(s, k),
    ensures
        keys_unique(s.push((k, v))),
        entries_map(s.push((k, v))) == entries_map(s).insert(k, v),
{
    let t = s.push((k, v));
    assert forall|a: int, b: int|
        0 <= a < t.len() && 0 <= b < t.len() && #[trigger] t[a].0 == #[trigger] t[b].0 implies a == b by {
        if a < s.len() && b < s.len() {
            assert(t[a] == s[a] && t[b] == s[b]);
        } else if a < s.len() {
            assert(t[a] == s[a]);
            assert(s[a].0 == k);
        } else if b < s.len() {
            assert(t[b] == s[b]);
            assert(s[b].0 == k);
        }
    }
    let m = entries_map(s).insert(k, v);
    assert forall|x: K| #[trigger] has_key(t, x) <==> m.contains_key(x) by {
        if has_key(t, x) {
            let a = choose|a: int| 0 <= a < t.len() && #[trigger] t[a].0 == x;
            if a < s.len() {
                assert(t[a] == s[a]);
                assert(has_key(s, x));
            }
        }
        if m.contains_key(x) {
            if x == k {
                assert(t[s.len() as int].0 == x);
            } else {
                assert(has_key(s, x));
                let b = choose|b: int| 0 <= b < s.len() && #[trigger] s[b].0 == x;
                assert(t[b] == s[b]);
            }
        }
    }
    assert forall|x: K| #[trigger] m.contains_key(x) implies entries_map(t)[x] == m[x] by {
        assert(has_key(t, x));
        let a = choose|a: int| 0 <= a < t.len() && #[trigger] t[a].0 == x;
        lemma_entry_in_map(t, a);
        if a < s.len() {
            assert(t[a] == s[a]);
            lemma_entry_in_map(s, a);
        }
    }
    assert(entries_map(t) =~= m);
}

/// A finite map from identifiers to values.
pub struct KeyMap<K, V> {
    entries: Vec<(K, V)>,
}

impl<K: MapKey, V> View for KeyMap<K, V> {
    type V = Map<K, V>;

    /// The map's contents.
    closed spec fn view(&self) -> Map<K, V> {
        entries_map(self.entries@)
    }
}

impl<K: MapKey, V> KeyMap<K, V> {

    /// The entries have distinct keys, and there are finitely many.
    pub closed spec fn wf(&self) -> bool {
        &&& keys_unique(self.entries@)
        &&& entries_map(self.entries@).dom().finite()
    }

    /// An empty map.
    pub fn new() -> (r: Self)
        ensures
            r.wf(),
            r@ == Map::<K, V>::empty(),
            r@.dom().finite(),
    {
        let r = KeyMap { entries: Vec::new() };
        assert(r@ =~= Map::<K, V>::empty());
        r
    }

    /// Where the entry with key `k` stands, if any.
    fn position(&self, k: &K) -> (r: Option<usize>)
        ensures
            match r {
                Some(i) => i < self.entries@.len() && self.entries@[i as int].0 == *k,
                None => !has_key(self.entries@, *k),
            },
    {
        let mut i: usize = 0;
        while i < self.entries.len()
            invariant
                i <= self.entries@.len(),
                forall|j: int| 0 <= j < i ==> #[trigger] self.entries@[j].0 != *k,
            decreases self.entries@.len() - i,
        {
            if self.entries[i].0.same(k) {
                return Some(i);
            }
            i = i + 1;
        }
        None
    }

    /// Whether the map holds key `k`.
    pub fn contains_key(&self, k: &K) -> (r: bool)
        requires
            self.wf(),
        ensures
            r == self@.contains_key(*k),
    {
        match self.position(k) {
            Some(i) => {
                proof {
                    lemma_entry_in_map(self.entries@, i as int);
                }
                true
            },
            None => false,
        }
    }

    /// The value under key `k`, if any.
    pub fn get(&self, k: &K) -> (r: Option<&V>)
        requires
            self.wf(),
        ensures
            match r {
                Some(v) => self@.contains_key(*k) && *v == self@[*k],
                None => !self@.contains_key(*k),
            },
    {
        match self.position(k) {
            Some(i) => {
                proof {
                    lemma_entry_in_map(self.entries@, i as int);
                }
                Some(&self.entries[i].1)
            },
            None => None,
        }
    }

    /// Puts `v` under key `k`, and hands back the value it replaced.
    pub fn insert(&mut self, k: K, v: V) -> (r: Option<V>)
        requires
            old(self).wf(),
        ensures
            final(self).wf(),
            final(self)@ == old(self)@.insert(k, v),
            final(self)@.dom().finite(),
            match r {
                Some(w) => old(self)@.contains_key(k) && w == old(self)@[k],
                None => !old(self)@.contains_key(k),
            },
    {
        let ghost s = self.entries@;
        match self.position(&k) {
            Some(i) => {
                proof {
                    lemma_entry_in_map(s, i as int);
                    lemma_remove_entry(s, i as int);
                }
                let e = self.entries.remove(i);
                proof {
                    assert(!has_key(s.remove(i as int), k)) by {
                        if has_key(s.remove(i as int), k) {
                            let a = choose|a: int| 0 <= a < s.remove(i as int).len() && #[trigger] s.remove(i as int)[a].0 == k;
                            lemma_entry_in_map(s.remove(i as int), a);
                        }
                    }
                    lemma_push_entry(s.remove(i as int), k, v);
                    assert(entries_map(s).remove(k).insert(k, v) =~= entries_map(s).insert(k, v));
                }
                self.entries.push((k, v));
                Some(e.1)
            },
            None => {
                proof {
                    lemma_push_entry(s, k, v);
                }
                self.entries.push((k, v));
                None
            },
        }
    }

    /// Takes the value under key `k` out of the map, if any.
    pub fn remove(&mut self, k: &K) -> (r: Option<V>)
        requires
            old(self).wf(),
        ensures
            final(self).wf(),
            final(self)@ == old(self)@.remove(*k),
            final(self)@.dom().finite(),
            match r {
                Some(w) => old(self)@.contains_key(*k) && w == old(self)@[*k],
                None => !old(self)@.contains_key(*k),
            },
    {
        let ghost s = self.entries@;
        match self.position(k) {
            Some(i) => {
                proof {
                    lemma_entry_in_map(s, i as int);
                    lemma_remove_entry(s, i as int);
                }
                let e = self.entries.remove(i);
                Some(e.1)
            },
            None => {
                proof {
                    assert(entries_map(s).remove(*k) =~= entries_map(s));
                }
                None
            },
        }
    }
}

} // verus!
