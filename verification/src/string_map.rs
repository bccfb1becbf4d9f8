//! A map from strings to values, kept as a list of keys that are pairwise
//! different and a list of the values that belong to them. Its view is a
//! `Map` from the characters of a key to the view of the value stored under
//! it.

use crate::text::str_eq;
use vstd::prelude::*;

verus! {

/// Whether no key occurs twice among `keys`.
pub open spec fn keys_distinct(keys: Seq<String>) -> bool {
    forall|i: int, j: int| 0 <= i < j < keys.len() ==> (#[trigger] keys[i])@ != (#[trigger] keys[j])@
}

/// Whether `key` is one of `keys`.
pub open spec fn has_key(keys: Seq<String>, key: Seq<char>) -> bool {
    exists|i: int| 0 <= i < keys.len() && (#[trigger] keys[i])@ == key
}

/// The position of `key` among `keys`, where it is one of them.
pub open spec fn slot_of(keys: Seq<String>, key: Seq<char>) -> int {
    choose|i: int| 0 <= i < keys.len() && (#[trigger] keys[i])@ == key
}

/// The characters of `keys`, key by key.
pub open spec fn key_views(keys: Seq<String>) -> Seq<Seq<char>> {
    Seq::new(keys.len(), |i: int| keys[i]@)
}

/// A map keyed by strings.
#[derive(Debug)]
pub struct StringMap<V> {
    keys: Vec<String>,
    values: Vec<V>,
}

impl<V: View> View for StringMap<V> {
    type V = Map<Seq<char>, V::V>;

    closed spec fn view(&self) -> Map<Seq<char>, V::V> {
        Map::new(
            |key: Seq<char>| has_key(self.keys@, key),
            |key: Seq<char>| self.values@[slot_of(self.keys@, key)]@,
        )
    }
}

impl<V> StringMap<V> {
    /// Whether each key has its value and no key occurs twice. Every map
    /// that executable code holds is well formed.
    #[verifier::type_invariant]
    pub closed spec fn well_formed(&self) -> bool {
        self.keys@.len() == self.values@.len() && keys_distinct(self.keys@)
    }

    /// Moves the keys and the values out and leaves the map empty, so that
    /// they can be changed and put back.
    fn take_apart(&mut self) -> (parts: (Vec<String>, Vec<V>))
        ensures
            parts.0 == old(self).keys,
            parts.1 == old(self).values,
    {
        let mut taken = StringMap { keys: Vec::new(), values: Vec::new() };
        core::mem::swap(self, &mut taken);
        (taken.keys, taken.values)
    }
}

impl<V: View> StringMap<V> {
    /// The keys in the order in which `keys` hands them out: the order in
    /// which they were first inserted.
    pub closed spec fn key_order(&self) -> Seq<Seq<char>> {
        key_views(self.keys@)
    }

    /// An empty map.
    pub fn new() -> (map: Self)
        ensures
            map@ == Map::<Seq<char>, V::V>::empty(),
            map.key_order() == Seq::<Seq<char>>::empty(),
    {
        let map = StringMap { keys: Vec::new(), values: Vec::new() };
        assert(map@ =~= Map::<Seq<char>, V::V>::empty());
        assert(map.key_order() =~= Seq::<Seq<char>>::empty());
        map
    }

    /// The position of `key` among the keys, if it is there.
    fn position(&self, key: &str) -> (found: Option<usize>)
        ensures
            match found {
                Some(i) => i < self.keys@.len() && self.keys@[i as int]@ == key@,
                None => !has_key(self.keys@, key@),
            },
    {
        let mut i: usize = 0;
        while i < self.keys.len()
            invariant
                i <= self.keys@.len(),
                forall|j: int| 0 <= j < i ==> (#[trigger] self.keys@[j])@ != key@,
            decreases self.keys@.len() - i,
        {
            if str_eq(self.keys[i].as_str(), key) {
                return Some(i);
            }
            i += 1;
        }
        None
    }

    /// Whether a value is stored under `key`.
    pub fn contains_key(&self, key: &str) -> (found: bool)
        ensures
            found == self@.contains_key(key@),
    {
        self.position(key).is_some()
    }

    /// The value stored under `key`, if there is one.
    pub fn get(&self, key: &str) -> (value: Option<&V>)
        ensures
            match value {
                Some(v) => self@.contains_key(key@) && v@ == self@[key@],
                None => !self@.contains_key(key@),
            },
    {
        proof {
            use_type_invariant(self);
        }
        match self.position(key) {
            Some(i) => {
                assert(slot_of(self.keys@, key@) == i as int);
                Some(&self.values[i])
            },
            None => None,
        }
    }

    /// The value stored under `key`, if there is one, to be changed in
    /// place: the map afterwards holds under `key` whatever the value has
    /// been changed to, and is otherwise as it was.
    pub fn get_mut(&mut self, key: &str) -> (value: Option<&mut V>)
        ensures
            match value {
                Some(v) => old(self)@.contains_key(key@) && v@ == old(self)@[key@] && final(self)@
                    == old(self)@.insert(key@, final(v)@),
                None => !old(self)@.contains_key(key@) && final(self)@ == old(self)@,
            },
            final(self).key_order() == old(self).key_order(),
    {
        proof {
            use_type_invariant(&*self);
        }
        match self.position(key) {
            Some(i) => {
                proof {
                    let keys = self.keys@;
                    assert(slot_of(keys, key@) == i as int);
                    assert forall|other: Seq<char>| has_key(keys, other) && other
                        != key@ implies slot_of(keys, other) != i as int by {}
                }
                Some(&mut self.values[i])
            },
            None => None,
        }
    }

    /// Stores `value` under `key` and hands back what was stored there before.
    /// A key that is new goes to the end of the key order; one that was there
    /// keeps its place.
    pub fn insert(&mut self, key: String, value: V) -> (previous: Option<V>)
        ensures
            final(self)@ == old(self)@.insert(key@, value@),
            match previous {
                Some(p) => old(self)@.contains_key(key@) && p@ == old(self)@[key@],
                None => !old(self)@.contains_key(key@),
            },
            final(self).key_order() == if old(self)@.contains_key(key@) {
                old(self).key_order()
            } else {
                old(self).key_order().push(key@)
            },
    {
        proof {
            use_type_invariant(&*self);
        }
        let found = self.position(key.as_str());
        let (mut keys, mut values) = self.take_apart();
        let ghost old_keys = keys@;
        let ghost old_values = values@;
        match found {
            Some(i) => {
                assert(slot_of(old_keys, key@) == i as int);
                let mut value = value;
                let place = &mut values[i];
                core::mem::swap(place, &mut value);
                proof {
                    assert forall|other: Seq<char>| has_key(old_keys, other) && other
                        != key@ implies slot_of(old_keys, other) != i as int by {}
                }
                *self = StringMap { keys, values };
                assert(self@ =~= old(self)@.insert(key@, old_values[i as int]@).insert(
                    key@,
                    self.values@[i as int]@,
                ));
                assert(self@ =~= old(self)@.insert(key@, self.values@[i as int]@));
                Some(value)
            },
            None => {
                keys.push(key);
                values.push(value);
                proof {
                    let last = old_keys.len() as int;
                    assert(keys@[last]@ == key@);
                    assert forall|j: int| 0 <= j < last implies (#[trigger] keys@[j])
                        == old_keys[j] by {}
                    assert(keys_distinct(keys@)) by {
                        assert forall|a: int, b: int| 0 <= a < b < keys@.len() implies (
                        #[trigger] keys@[a])@ != (#[trigger] keys@[b])@ by {
                            if b == last {
                                assert(old_keys[a]@ != key@);
                            } else {
                                assert(old_keys[a]@ != old_keys[b]@);
                            }
                        }
                    }
                    assert forall|k: Seq<char>| has_key(keys@, k) == (has_key(old_keys, k) || k
                        == key@) by {
                        if has_key(old_keys, k) {
                            assert(keys@[slot_of(old_keys, k)]@ == k);
                        }
                        if has_key(keys@, k) && k != key@ {
                            assert(old_keys[slot_of(keys@, k)]@ == k);
                        }
                    }
                    assert forall|k: Seq<char>| has_key(old_keys, k) implies slot_of(keys@, k)
                        == slot_of(old_keys, k) by {
                        assert(keys@[slot_of(old_keys, k)]@ == k);
                    }
                    assert(slot_of(keys@, key@) == last);
                }
                *self = StringMap { keys, values };
                assert(self@ =~= old(self)@.insert(key@, value@));
                assert(self.key_order() =~= old(self).key_order().push(key@));
                None
            },
        }
    }

    /// Takes out what is stored under `key`, if anything, and hands it back.
    /// The other keys keep their order.
    pub fn remove(&mut self, key: &str) -> (taken: Option<V>)
        ensures
            final(self)@ == old(self)@.remove(key@),
            match taken {
                Some(t) => old(self)@.contains_key(key@) && t@ == old(self)@[key@],
                None => !old(self)@.contains_key(key@),
            },
            final(self).key_order() == if old(self)@.contains_key(key@) {
                old(self).key_order().remove(old(self).key_order().index_of(key@))
            } else {
                old(self).key_order()
            },
    {
        proof {
            use_type_invariant(&*self);
        }
        match self.position(key) {
            Some(i) => {
                let (mut keys, mut values) = self.take_apart();
                let ghost old_keys = keys@;
                let ghost old_values = values@;
                keys.remove(i);
                let taken = values.remove(i);
                proof {
                    assert(slot_of(old_keys, key@) == i as int);
                    assert forall|j: int| 0 <= j < keys@.len() implies (#[trigger] keys@[j])
                        == old_keys[if j < i { j } else { j + 1 }] by {}
                    assert forall|j: int| 0 <= j < values@.len() implies (#[trigger] values@[j])
                        == old_values[if j < i { j } else { j + 1 }] by {}
                    assert(keys_distinct(keys@)) by {
                        assert forall|a: int, b: int| 0 <= a < b < keys@.len() implies (
                        #[trigger] keys@[a])@ != (#[trigger] keys@[b])@ by {
                            let a0 = if a < i { a } else { a + 1 };
                            let b0 = if b < i { b } else { b + 1 };
                            assert(old_keys[a0]@ != old_keys[b0]@);
                        }
                    }
                    assert forall|k: Seq<char>| has_key(keys@, k) == (has_key(old_keys, k) && k
                        != key@) by {
                        if has_key(old_keys, k) && k != key@ {
                            let s = slot_of(old_keys, k);
                            let t = if s < i { s } else { s - 1 };
                            assert(keys@[t]@ == k);
                        }
                        if has_key(keys@, k) {
                            let t = slot_of(keys@, k);
                            let s = if t < i { t } else { t + 1 };
                            assert(old_keys[s]@ == k);
                            if k == key@ {
                                assert(old_keys[s]@ == old_keys[i as int]@);
                            }
                        }
                    }
                    assert forall|k: Seq<char>| has_key(keys@, k) implies values@[slot_of(keys@, k)]
                        == old_values[slot_of(old_keys, k)] by {
                        let t = slot_of(keys@, k);
                        let s = if t < i { t } else { t + 1 };
                        assert(old_keys[s]@ == k);
                        assert(slot_of(old_keys, k) == s);
                    }
                }
                *self = StringMap { keys, values };
                proof {
                    assert(self@ =~= old(self)@.remove(key@));
                    let order = key_views(old_keys);
                    assert(order[i as int] == key@);
                    assert(order.index_of(key@) == i as int) by {
                        let w = order.index_of(key@);
                        assert(0 <= w < order.len() && order[w] == key@);
                        assert(old_keys[w]@ == old_keys[i as int]@);
                    }
                    assert(self.key_order() =~= order.remove(i as int));
                }
                Some(taken)
            },
            None => {
                assert(self@ =~= old(self)@.remove(key@));
                None
            },
        }
    }

    /// The keys, in key order.
    pub fn keys(&self) -> (keys: Vec<String>)
        ensures
            keys@.len() == self.key_order().len(),
            forall|i: int| 0 <= i < keys@.len() ==> (#[trigger] keys@[i])@ == self.key_order()[i],
    {
        let mut keys: Vec<String> = Vec::new();
        let mut i: usize = 0;
        while i < self.keys.len()
            invariant
                i <= self.keys@.len(),
                keys@.len() == i,
                forall|j: int| 0 <= j < i ==> (#[trigger] keys@[j])@ == self.keys@[j]@,
            decreases self.keys@.len() - i,
        {
            keys.push(self.keys[i].clone());
            i += 1;
        }
        keys
    }

    /// What holds of the key order: no key stands in it twice, and a key
    /// stands in it exactly when the map holds a value under it.
    pub proof fn lemma_key_order(&self)
        requires
            self.well_formed(),
        ensures
            self.key_order().no_duplicates(),
            forall|key: Seq<char>| self.key_order().contains(key) == self@.contains_key(key),
    {
        let order = self.key_order();
        assert forall|key: Seq<char>| order.contains(key) == self@.contains_key(key) by {
            if order.contains(key) {
                let i = choose|i: int| 0 <= i < order.len() && order[i] == key;
                assert(self.keys@[i]@ == key);
            }
            if self@.contains_key(key) {
                let i = slot_of(self.keys@, key);
                assert(order[i] == key);
            }
        }
        assert forall|i: int, j: int| 0 <= i < order.len() && 0 <= j < order.len() && i
            != j implies order[i] != order[j] by {
            if i < j {
                assert(self.keys@[i]@ != self.keys@[j]@);
            } else {
                assert(self.keys@[j]@ != self.keys@[i]@);
            }
        }
    }
}

} // verus!
