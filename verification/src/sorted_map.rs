//! A map from `u64` keys kept in ascending key order.

use vstd::prelude::*;

verus! {

/// A map whose entries stand in ascending key order, so that walking it is
/// deterministic.
pub struct SortedMap<V> {
    keys: Vec<u64>,
    values: Vec<V>,
}

/// `keys` is strictly ascending.
pub open spec fn ascending(keys: Seq<u64>) -> bool {
    forall|i: int, j: int| 0 <= i < j < keys.len() ==> keys[i] < keys[j]
}

/// The members of `s` in ascending order.
pub open spec fn ascending_keys(s: Set<u64>) -> Seq<u64> {
    choose|keys: Seq<u64>| ascending(keys) && keys.to_set() == s
}

/// A strictly ascending sequence is determined by its members.
pub proof fn ascending_is_unique(a: Seq<u64>, b: Seq<u64>)
    requires
        ascending(a),
        ascending(b),
        forall|k: u64| a.contains(k) <==> b.contains(k),
    ensures
        a == b,
    decreases a.len(),
{
    if a.len() == 0 {
        if b.len() > 0 {
            assert(b.contains(b[0]));
            assert(a.contains(b[0]));
        }
        assert(a =~= b);
    } else {
        assert(a.contains(a.last()));
        assert(b.contains(a.last()));
        assert(b.len() > 0);
        assert(b.contains(b.last()));
        assert(a.contains(b.last()));
        let i = b.index_of(a.last());
        let j = a.index_of(b.last());
        assert(b[i] == a.last() && a[j] == b.last());
        assert(a.last() == b.last()) by {
            if i < b.len() - 1 {
                assert(b[i] < b[b.len() - 1]);
            }
            if j < a.len() - 1 {
                assert(a[j] < a[a.len() - 1]);
            }
        }
        let a1 = a.drop_last();
        let b1 = b.drop_last();
        assert forall|k: u64| a1.contains(k) <==> b1.contains(k) by {
            if a1.contains(k) {
                let x = a1.index_of(k);
                assert(a[x] == k && a[x] < a[a.len() - 1]);
                assert(a.contains(k));
                assert(b.contains(k));
                let y = b.index_of(k);
                assert(b[y] == k);
                assert(b1[y] == k);
            }
            if b1.contains(k) {
                let x = b1.index_of(k);
                assert(b[x] == k && b[x] < b[b.len() - 1]);
                assert(b.contains(k));
                assert(a.contains(k));
                let y = a.index_of(k);
                assert(a[y] == k);
                assert(a1[y] == k);
            }
        }
        ascending_is_unique(a1, b1);
        assert(a =~= a1.push(a.last()));
        assert(b =~= b1.push(b.last()));
    }
}

impl<V> View for SortedMap<V> {
    type V = Map<u64, V>;

    open spec fn view(&self) -> Map<u64, V> {
        Map::new(
            |k: u64| self.spec_keys().contains(k),
            |k: u64| self.spec_values()[self.spec_keys().index_of(k)],
        )
    }
}

impl<V> SortedMap<V> {
    /// The keys in order.
    pub closed spec fn spec_keys(&self) -> Seq<u64> {
        self.keys@
    }

    /// The values, each at the place of its key.
    pub closed spec fn spec_values(&self) -> Seq<V> {
        self.values@
    }

    /// Keys are strictly ascending and each has a value.
    pub open spec fn wf(&self) -> bool {
        &&& ascending(self.spec_keys())
        &&& self.spec_keys().len() == self.spec_values().len()
    }

    /// What the map holds at place `i`.
    pub proof fn lemma_at(&self, i: int)
        requires
            self.wf(),
            0 <= i < self.spec_keys().len(),
        ensures
            self@.dom().contains(self.spec_keys()[i]),
            self@[self.spec_keys()[i]] == self.spec_values()[i],
    {
        let k = self.spec_keys()[i];
        assert(self.spec_keys().contains(k));
        let j = self.spec_keys().index_of(k);
        assert(self.spec_keys()[j] == k);
        assert(i == j) by {
            if i < j {
                assert(self.spec_keys()[i] < self.spec_keys()[j]);
            }
            if j < i {
                assert(self.spec_keys()[j] < self.spec_keys()[i]);
            }
        }
    }

    /// The keys are the domain in ascending order.
    pub proof fn lemma_keys(&self)
        requires
            self.wf(),
        ensures
            self.spec_keys() == ascending_keys(self@.dom()),
    {
        let keys = self.spec_keys();
        assert(keys.to_set() =~= self@.dom());
        let chosen = ascending_keys(self@.dom());
        assert(ascending(chosen) && chosen.to_set() == self@.dom());
        assert forall|k: u64| keys.contains(k) <==> chosen.contains(k) by {
            assert(keys.contains(k) <==> keys.to_set().contains(k));
            assert(chosen.contains(k) <==> chosen.to_set().contains(k));
        }
        ascending_is_unique(keys, chosen);
    }

    /// An empty map.
    pub fn new() -> (r: Self)
        ensures
            r.wf(),
            r@ == Map::<u64, V>::empty(),
            r.spec_keys().len() == 0,
    {
        let r = SortedMap { keys: Vec::new(), values: Vec::new() };
        assert(r@ =~= Map::<u64, V>::empty());
        r
    }

    /// Number of entries.
    pub fn len(&self) -> (n: usize)
        requires
            self.wf(),
        ensures
            n == self.spec_keys().len(),
    {
        self.keys.len()
    }

    /// The first place whose key is not below `key`.
    fn lower_bound(&self, key: u64) -> (at: usize)
        requires
            self.wf(),
        ensures
            at <= self.spec_keys().len(),
            forall|i: int| 0 <= i < at ==> self.spec_keys()[i] < key,
            forall|i: int| at <= i < self.spec_keys().len() ==> key <= self.spec_keys()[i],
    {
        let mut lo: usize = 0;
        let mut hi: usize = self.keys.len();
        while lo < hi
            invariant
                self.wf(),
                lo <= hi <= self.keys@.len(),
                forall|i: int| 0 <= i < lo ==> self.keys@[i] < key,
                forall|i: int| hi <= i < self.keys@.len() ==> key <= self.keys@[i],
            decreases hi - lo,
        {
            let mid: usize = lo + (hi - lo) / 2;
            if self.keys[mid] < key {
                lo = mid + 1;
            } else {
                hi = mid;
            }
        }
        lo
    }

    /// The place of `key`, if it is present.
    pub fn find(&self, key: u64) -> (r: Option<usize>)
        requires
            self.wf(),
        ensures
            match r {
                Some(i) => i < self.spec_keys().len() && self.spec_keys()[i as int] == key
                    && self@.dom().contains(key) && self@[key] == self.spec_values()[i as int],
                None => !self@.dom().contains(key),
            },
    {
        let at: usize = self.lower_bound(key);
        if at < self.keys.len() && self.keys[at] == key {
            proof {
                self.lemma_at(at as int);
            }
            Some(at)
        } else {
            None
        }
    }

    /// Whether `key` is present.
    pub fn contains(&self, key: u64) -> (r: bool)
        requires
            self.wf(),
        ensures
            r == self@.dom().contains(key),
    {
        self.find(key).is_some()
    }

    /// The value of `key`, if it is present.
    pub fn get(&self, key: u64) -> (r: Option<&V>)
        requires
            self.wf(),
        ensures
            match r {
                Some(v) => self@.dom().contains(key) && *v == self@[key],
                None => !self@.dom().contains(key),
            },
    {
        match self.find(key) {
            Some(i) => Some(&self.values[i]),
            None => None,
        }
    }

    /// The key at place `i`.
    pub fn key_at(&self, i: usize) -> (k: u64)
        requires
            self.wf(),
            i < self.spec_keys().len(),
        ensures
            k == self.spec_keys()[i as int],
            self@.dom().contains(k),
    {
        proof {
            self.lemma_at(i as int);
        }
        self.keys[i]
    }

    /// The value at place `i`.
    pub fn value_at(&self, i: usize) -> (v: &V)
        requires
            self.wf(),
            i < self.spec_keys().len(),
        ensures
            *v == self.spec_values()[i as int],
            *v == self@[self.spec_keys()[i as int]],
    {
        proof {
            self.lemma_at(i as int);
        }
        &self.values[i]
    }

    /// Set the value of `key`.
    pub fn insert(&mut self, key: u64, value: V)
        requires
            old(self).wf(),
        ensures
            final(self).wf(),
            final(self)@ == old(self)@.insert(key, value),
            old(self)@.dom().contains(key) ==> final(self).spec_keys() == old(self).spec_keys(),
            !old(self)@.dom().contains(key) ==> final(self).spec_keys().len()
                == old(self).spec_keys().len() + 1,
    {
        let ghost before = *self;
        let at: usize = self.lower_bound(key);
        if at < self.keys.len() && self.keys[at] == key {
            proof {
                before.lemma_at(at as int);
            }
            self.values[at] = value;
            proof {
                assert(self.spec_keys() =~= before.spec_keys());
                assert forall|k: u64| #[trigger] self@.dom().contains(k) implies self@[k]
                    == before@.insert(key, value)[k] by {
                    let i = self.spec_keys().index_of(k);
                    assert(self.spec_keys()[i] == k);
                    self.lemma_at(i);
                    before.lemma_at(i);
                }
            }
            assert(self@ =~= before@.insert(key, value));
        } else {
            self.keys.insert(at, key);
            self.values.insert(at, value);
            proof {
                let ks = self.spec_keys();
                let old_ks = before.spec_keys();
                assert(ks =~= old_ks.insert(at as int, key));
                assert(ascending(ks));
                assert(!old_ks.contains(key)) by {
                    if old_ks.contains(key) {
                        let i = old_ks.index_of(key);
                        assert(old_ks[i] == key);
                        if i > at {
                            assert(old_ks[at as int] < old_ks[i]);
                        }
                    }
                }
                assert forall|k: u64| #[trigger]
                    self@.dom().contains(k) <==> before@.insert(key, value).dom().contains(k) by {
                    if self@.dom().contains(k) && k != key {
                        let i = ks.index_of(k);
                        assert(ks[i] == k);
                        if i < at {
                            assert(old_ks[i] == k);
                        } else {
                            assert(old_ks[i - 1] == k);
                        }
                        assert(old_ks.contains(k));
                    }
                    if before@.dom().contains(k) {
                        let i = old_ks.index_of(k);
                        assert(old_ks[i] == k);
                        if i < at {
                            assert(ks[i] == k);
                        } else {
                            assert(ks[i + 1] == k);
                        }
                        assert(ks.contains(k));
                    }
                    if k == key {
                        assert(ks[at as int] == key);
                        assert(ks.contains(key));
                    }
                }
                assert forall|k: u64| #[trigger] self@.dom().contains(k) implies self@[k]
                    == before@.insert(key, value)[k] by {
                    let i = ks.index_of(k);
                    assert(ks[i] == k);
                    self.lemma_at(i);
                    if i < at {
                        before.lemma_at(i);
                    } else if i > at {
                        before.lemma_at(i - 1);
                    }
                }
            }
            assert(self@ =~= before@.insert(key, value));
        }
    }

    /// Mutable access to the value at place `i`.
    pub fn value_mut(&mut self, i: usize) -> (v: &mut V)
        requires
            old(self).wf(),
            i < old(self).spec_keys().len(),
        ensures
            *v == old(self).spec_values()[i as int],
            final(self).spec_keys() == old(self).spec_keys(),
            final(self).spec_values() == old(self).spec_values().update(i as int, *final(v)),
    {
        &mut self.values[i]
    }

    /// Replacing the value at a place is an insertion at its key.
    pub proof fn lemma_update(before: Self, after: Self, i: int, value: V)
        requires
            before.wf(),
            0 <= i < before.spec_keys().len(),
            after.spec_keys() == before.spec_keys(),
            after.spec_values() == before.spec_values().update(i, value),
        ensures
            after.wf(),
            after@ == before@.insert(before.spec_keys()[i], value),
    {
        let key = before.spec_keys()[i];
        before.lemma_at(i);
        assert forall|k: u64| #[trigger] after@.dom().contains(k) implies after@[k]
            == before@.insert(key, value)[k] by {
            let j = after.spec_keys().index_of(k);
            assert(after.spec_keys()[j] == k);
            after.lemma_at(j);
            before.lemma_at(j);
        }
        assert(after@ =~= before@.insert(key, value));
    }
}

} // verus!
