//! A map from string keys to values that keeps its entries in a vector, in the
//! way the contracts' persistent maps do: a new key is appended, an existing
//! key keeps its slot when its value is replaced, and removing a key moves the
//! last entry into the freed slot. The contracts keep these maps in the
//! chain's storage, entry by entry; this is the value the logic works on
//! between reading the state and writing it back.
use vstd::prelude::*;

verus! {

/// Whether some entry of `s` has key `k`.
pub open spec fn has_key<T>(s: Seq<(Seq<char>, T)>, k: Seq<char>) -> bool {
    exists|i: int| 0 <= i < s.len() && (#[trigger] s[i]).0 == k
}

/// No key occurs twice in `s`.
pub open spec fn keys_distinct<T>(s: Seq<(Seq<char>, T)>) -> bool {
    forall|i: int, j: int|
        0 <= i < s.len() && 0 <= j < s.len() && i != j ==> (#[trigger] s[i]).0 != (#[trigger] s[j]).0
}

/// The position of key `k` in `s` (meaningful when `has_key(s, k)`).
pub open spec fn key_index<T>(s: Seq<(Seq<char>, T)>, k: Seq<char>) -> int {
    choose|i: int| 0 <= i < s.len() && (#[trigger] s[i]).0 == k
}

/// The value stored under `k`, if any.
pub open spec fn lookup<T>(s: Seq<(Seq<char>, T)>, k: Seq<char>) -> Option<T> {
    if has_key(s, k) {
        Some(s[key_index(s, k)].1)
    } else {
        None
    }
}

/// The entries after storing `v` under `k`.
pub open spec fn inserted<T>(s: Seq<(Seq<char>, T)>, k: Seq<char>, v: T) -> Seq<(Seq<char>, T)> {
    if has_key(s, k) {
        s.update(key_index(s, k), (k, v))
    } else {
        s.push((k, v))
    }
}

/// The entries after removing `k`: the last entry takes the removed one's slot.
pub open spec fn removed<T>(s: Seq<(Seq<char>, T)>, k: Seq<char>) -> Seq<(Seq<char>, T)> {
    if has_key(s, k) {
        s.update(key_index(s, k), s.last()).drop_last()
    } else {
        s
    }
}

/// With distinct keys, the entry that has key `k` is the one `key_index` names.
pub proof fn lemma_key_index_unique<T>(s: Seq<(Seq<char>, T)>, i: int)
    requires
        keys_distinct(s),
        0 <= i < s.len(),
    ensures
        has_key(s, s[i].0),
        key_index(s, s[i].0) == i,
        lookup(s, s[i].0) == Some(s[i].1),
{
    let k = s[i].0;
    assert(has_key(s, k));
    let j = key_index(s, k);
    assert(s[j].0 == k);
}

/// Storing a value keeps the keys distinct.
pub proof fn lemma_inserted_distinct<T>(s: Seq<(Seq<char>, T)>, k: Seq<char>, v: T)
    requires
        keys_distinct(s),
    ensures
        keys_distinct(inserted(s, k, v)),
        inserted(s, k, v).len() == s.len() + (if has_key(s, k) { 0int } else { 1int }),
{
    let t = inserted(s, k, v);
    if has_key(s, k) {
        let j = key_index(s, k);
        assert forall|a: int, b: int|
            0 <= a < t.len() && 0 <= b < t.len() && a != b implies (#[trigger] t[a]).0 != (#[trigger] t[b]).0 by {
            if a != j && b != j {
                assert(t[a] == s[a] && t[b] == s[b]);
            } else if a == j {
                assert(s[b].0 != s[j].0);
            } else {
                assert(s[a].0 != s[j].0);
            }
        }
    } else {
        assert forall|a: int, b: int|
            0 <= a < t.len() && 0 <= b < t.len() && a != b implies (#[trigger] t[a]).0 != (#[trigger] t[b]).0 by {
            if a < s.len() && b < s.len() {
                assert(t[a] == s[a] && t[b] == s[b]);
            } else if a == s.len() {
                assert(t[b] == s[b]);
            } else {
                assert(t[a] == s[a]);
            }
        }
    }
}

/// Removing a key keeps the keys distinct.
pub proof fn lemma_removed_distinct<T>(s: Seq<(Seq<char>, T)>, k: Seq<char>)
    requires
        keys_distinct(s),
    ensures
        keys_distinct(removed(s, k)),
        removed(s, k).len() == s.len() - (if has_key(s, k) { 1int } else { 0int }),
{
    if has_key(s, k) {
        let j = key_index(s, k);
        let n = s.len() - 1;
        let t = removed(s, k);
        assert forall|a: int, b: int|
            0 <= a < t.len() && 0 <= b < t.len() && a != b implies (#[trigger] t[a]).0 != (#[trigger] t[b]).0 by {
            let sa = if a == j { n } else { a };
            let sb = if b == j { n } else { b };
            assert(t[a] == s[sa]);
            assert(t[b] == s[sb]);
        }
    }
}

/// Reading a key back after storing it gives the stored value, and every other
/// key reads as before.
pub proof fn lemma_lookup_inserted<T>(s: Seq<(Seq<char>, T)>, k: Seq<char>, v: T, k2: Seq<char>)
    requires
        keys_distinct(s),
    ensures
        lookup(inserted(s, k, v), k) == Some(v),
        k2 != k ==> lookup(inserted(s, k, v), k2) == lookup(s, k2),
        has_key(inserted(s, k, v), k2) == (k2 == k || has_key(s, k2)),
{
    let t = inserted(s, k, v);
    lemma_inserted_distinct(s, k, v);
    let p = if has_key(s, k) { key_index(s, k) } else { s.len() as int };
    assert(t[p] == (k, v));
    lemma_key_index_unique(t, p);
    if k2 != k {
        if has_key(s, k2) {
            let q = key_index(s, k2);
            assert(t[q] == s[q]);
            lemma_key_index_unique(t, q);
        } else {
            assert forall|i: int| 0 <= i < t.len() implies (#[trigger] t[i]).0 != k2 by {
                if i != p {
                    assert(t[i] == s[i]);
                }
            }
        }
    }
}

/// After removing a key it is absent, and every other key reads as before.
pub proof fn lemma_lookup_removed<T>(s: Seq<(Seq<char>, T)>, k: Seq<char>, k2: Seq<char>)
    requires
        keys_distinct(s),
    ensures
        lookup(removed(s, k), k) == None::<T>,
        k2 != k ==> lookup(removed(s, k), k2) == lookup(s, k2),
        has_key(removed(s, k), k2) == (k2 != k && has_key(s, k2)),
{
    lemma_removed_distinct(s, k);
    let t = removed(s, k);
    if has_key(s, k) {
        let j = key_index(s, k);
        let n = s.len() - 1;
        assert forall|i: int| 0 <= i < t.len() implies (#[trigger] t[i]).0 != k by {
            if i == j {
                assert(t[i] == s[n]);
            } else {
                assert(t[i] == s[i]);
            }
        }
        if k2 != k && has_key(s, k2) {
            let q = key_index(s, k2);
            let p = if q == n { j } else { q };
            assert(t[p] == s[q]);
            lemma_key_index_unique(t, p);
        }
        if k2 != k && !has_key(s, k2) {
            assert forall|i: int| 0 <= i < t.len() implies (#[trigger] t[i]).0 != k2 by {
                if i == j {
                    assert(t[i] == s[n]);
                } else {
                    assert(t[i] == s[i]);
                }
            }
        }
    }
}

/// An insertion-ordered map with string keys.
///
/// Its view lists the entries in order, each key and value by its view.
pub struct OrderedMap<T> {
    entries: Vec<(String, T)>,
}

impl<T: View> View for OrderedMap<T> {
    type V = Seq<(Seq<char>, T::V)>;

    closed spec fn view(&self) -> Seq<(Seq<char>, T::V)> {
        self.entries@.map_values(|e: (String, T)| (e.0@, e.1@))
    }
}

impl<T: View> OrderedMap<T> {
    /// The map's validity: no key occurs twice.
    pub open spec fn wf(&self) -> bool {
        keys_distinct(self@)
    }

    /// An empty map.
    pub fn new() -> (r: Self)
        ensures
            r@ == Seq::<(Seq<char>, T::V)>::empty(),
            r.wf(),
    {
        let r = OrderedMap { entries: Vec::new() };
        assert(r@ =~= Seq::<(Seq<char>, T::V)>::empty());
        r
    }

    /// The number of entries.
    pub fn len(&self) -> (r: usize)
        ensures
            r == self@.len(),
    {
        self.entries.len()
    }

    /// The key and value of the entry at position `i`.
    pub fn entry(&self, i: usize) -> (r: (&String, &T))
        requires
            i < self@.len(),
        ensures
            r.0@ == self@[i as int].0,
            r.1@ == self@[i as int].1,
    {
        let e = &self.entries[i];
        (&e.0, &e.1)
    }

    /// The position of key `k`, if it is present.
    pub fn find(&self, k: &String) -> (r: Option<usize>)
        requires
            self.wf(),
        ensures
            match r {
                Some(i) => i < self@.len() && self@[i as int].0 == k@ && key_index(self@, k@) == i,
                None => !has_key(self@, k@),
            },
    {
        let n = self.entries.len();
        let mut i: usize = 0;
        while i < n
            invariant
                n == self@.len(),
                i <= n,
                self.wf(),
                forall|j: int| 0 <= j < i ==> (#[trigger] self@[j]).0 != k@,
            decreases n - i,
        {
            if self.entries[i].0 == *k {
                proof {
                    lemma_key_index_unique(self@, i as int);
                }
                return Some(i);
            }
            i = i + 1;
        }
        None
    }

    /// Whether key `k` is present.
    pub fn contains_key(&self, k: &String) -> (r: bool)
        requires
            self.wf(),
        ensures
            r == has_key(self@, k@),
    {
        self.find(k).is_some()
    }

    /// The value stored under `k`, if any.
    pub fn get(&self, k: &String) -> (r: Option<&T>)
        requires
            self.wf(),
        ensures
            match r {
                Some(v) => lookup(self@, k@) == Some(v@),
                None => lookup(self@, k@) == None::<T::V>,
            },
    {
        match self.find(k) {
            Some(i) => Some(&self.entries[i].1),
            None => None,
        }
    }

    /// Stores `v` under `k`, replacing the value in place if `k` is present
    /// and appending a new entry otherwise.
    pub fn insert(&mut self, k: String, v: T)
        requires
            old(self).wf(),
        ensures
            final(self).wf(),
            final(self)@ == inserted(old(self)@, k@, v@),
    {
        let ghost kv = k@;
        let ghost vv = v@;
        match self.find(&k) {
            Some(i) => {
                self.entries.set(i, (k, v));
                assert(self@ =~= old(self)@.update(i as int, (kv, vv)));
            },
            None => {
                self.entries.push((k, v));
                assert(self@ =~= old(self)@.push((kv, vv)));
            },
        }
        proof {
            lemma_inserted_distinct(old(self)@, kv, vv);
        }
    }

    /// Removes `k`, moving the last entry into its slot, and returns its value.
    pub fn remove(&mut self, k: &String) -> (r: Option<T>)
        requires
            old(self).wf(),
        ensures
            final(self).wf(),
            final(self)@ == removed(old(self)@, k@),
            r is None ==> *final(self) == *old(self),
            match r {
                Some(v) => lookup(old(self)@, k@) == Some(v@),
                None => lookup(old(self)@, k@) == None::<T::V>,
            },
    {
        match self.find(k) {
            Some(i) => {
                let e = self.entries.swap_remove(i);
                assert(self@ =~= old(self)@.update(i as int, old(self)@.last()).drop_last());
                proof {
                    lemma_removed_distinct(old(self)@, k@);
                }
                Some(e.1)
            },
            None => None,
        }
    }
}

} // verus!
