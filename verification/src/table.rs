use vstd::prelude::*;

verus! {

/// A finite map from text keys to values, kept in the order in which the keys
/// were first inserted.
///
/// Its view is the mathematical map from a key's characters to its value;
/// `keys()` is the sequence of its keys in insertion order.
pub struct TextMap<V> {
    keys: Vec<String>,
    values: Vec<V>,
}

impl<V> View for TextMap<V> {
    type V = Map<Seq<char>, V>;

    closed spec fn view(&self) -> Map<Seq<char>, V> {
        Map::new(
            |k: Seq<char>| self.holds(k),
            |k: Seq<char>| self.values@[self.slot(k)],
        )
    }
}

impl<V> TextMap<V> {
    /// Every key has one value and no key occurs twice.
    pub closed spec fn wf(&self) -> bool {
        &&& self.keys@.len() == self.values@.len()
        &&& forall|i: int, j: int|
            0 <= i < j < self.keys@.len() ==> self.keys@[i]@ != self.keys@[j]@
    }

    /// The keys in the order of their first insertion.
    pub closed spec fn keys(&self) -> Seq<Seq<char>> {
        Seq::new(self.keys@.len(), |i: int| self.keys@[i]@)
    }

    spec fn holds(&self, k: Seq<char>) -> bool {
        exists|i: int| 0 <= i < self.keys@.len() && self.keys@[i]@ == k
    }

    spec fn slot(&self, k: Seq<char>) -> int {
        choose|i: int| 0 <= i < self.keys@.len() && self.keys@[i]@ == k
    }

    proof fn slot_of_key(&self, i: int)
        requires
            self.wf(),
            0 <= i < self.keys@.len(),
        ensures
            self.holds(self.keys@[i]@),
            self.slot(self.keys@[i]@) == i,
            self@.contains_key(self.keys@[i]@),
            self@[self.keys@[i]@] == self.values@[i],
    {
        let k = self.keys@[i]@;
        assert(self.holds(k));
        let j = self.slot(k);
        assert(0 <= j < self.keys@.len() && self.keys@[j]@ == k);
        if j < i {
            assert(self.keys@[j]@ != self.keys@[i]@);
        }
        if i < j {
            assert(self.keys@[i]@ != self.keys@[j]@);
        }
    }

    /// The keys are distinct, they are exactly the domain of the view, and the
    /// view is finite with one entry per key.
    pub proof fn keys_are_the_domain(&self)
        requires
            self.wf(),
        ensures
            self.keys().no_duplicates(),
            self@.dom() == self.keys().to_set(),
            self@.dom().finite(),
            self@.dom().len() == self.keys().len(),
    {
        let keys = self.keys();
        assert forall|k: Seq<char>| self@.dom().contains(k) <==> keys.to_set().contains(k) by {
            if self@.dom().contains(k) {
                let i = self.slot(k);
                assert(keys[i] == k);
            }
            if keys.to_set().contains(k) {
                let i = choose|i: int| 0 <= i < keys.len() && keys[i] == k;
                assert(self.keys@[i]@ == k);
            }
        }
        assert(self@.dom() =~= keys.to_set());
        keys.unique_seq_to_set();
    }

    pub fn new() -> (map: TextMap<V>)
        ensures
            map.wf(),
            map@ == Map::<Seq<char>, V>::empty(),
            map.keys() == Seq::<Seq<char>>::empty(),
    {
        let map = TextMap { keys: Vec::new(), values: Vec::new() };
        assert(map@ =~= Map::<Seq<char>, V>::empty());
        assert(map.keys() =~= Seq::<Seq<char>>::empty());
        map
    }

    /// The number of keys.
    pub fn len(&self) -> (n: usize)
        requires
            self.wf(),
        ensures
            n == self.keys().len(),
            n == self@.dom().len(),
    {
        proof {
            self.keys_are_the_domain();
        }
        self.keys.len()
    }

    /// The place of `key` among the keys, if it is one of them.
    pub fn position(&self, key: &str) -> (place: Option<usize>)
        requires
            self.wf(),
        ensures
            match place {
                Some(i) => i < self.keys().len() && self.keys()[i as int] == key@
                    && self@.contains_key(key@),
                None => !self@.contains_key(key@) && !self.keys().contains(key@),
            },
    {
        let wanted = key.to_owned();
        let mut i: usize = 0;
        while i < self.keys.len()
            invariant
                self.wf(),
                wanted@ == key@,
                i <= self.keys@.len(),
                forall|j: int| 0 <= j < i ==> self.keys@[j]@ != key@,
            decreases self.keys@.len() - i,
        {
            if self.keys[i] == wanted {
                proof {
                    self.slot_of_key(i as int);
                }
                return Some(i);
            }
            i += 1;
        }
        None
    }

    /// The value stored under `key`, if there is one.
    pub fn get(&self, key: &str) -> (found: Option<&V>)
        requires
            self.wf(),
        ensures
            match found {
                Some(value) => self@.contains_key(key@) && *value == self@[key@],
                None => !self@.contains_key(key@),
            },
    {
        match self.position(key) {
            Some(i) => {
                proof {
                    self.slot_of_key(i as int);
                }
                Some(&self.values[i])
            },
            None => None,
        }
    }

    /// The value at a place in insertion order.
    pub fn value_at(&self, place: usize) -> (value: &V)
        requires
            self.wf(),
            place < self.keys().len(),
        ensures
            self@.contains_key(self.keys()[place as int]),
            *value == self@[self.keys()[place as int]],
    {
        proof {
            self.slot_of_key(place as int);
        }
        &self.values[place]
    }

    /// Stores `value` under `key`, replacing the value the key had. A new key
    /// goes to the end of the insertion order; a known key keeps its place.
    pub fn insert(&mut self, key: String, value: V)
        requires
            old(self).wf(),
        ensures
            final(self).wf(),
            final(self)@ == old(self)@.insert(key@, value),
            final(self).keys() == if old(self)@.contains_key(key@) {
                old(self).keys()
            } else {
                old(self).keys().push(key@)
            },
    {
        let ghost before = *self;
        match self.position(key.as_str()) {
            Some(i) => {
                self.values.set(i, value);
                proof {
                    assert(self.keys() =~= before.keys());
                    assert forall|k: Seq<char>| #[trigger] self@.contains_key(k) implies self@[k]
                        == before@.insert(key@, value)[k] by {
                        let j = self.slot(k);
                        before.slot_of_key(j);
                        self.slot_of_key(j);
                    }
                    assert(self@ =~= before@.insert(key@, value));
                }
            },
            None => {
                self.keys.push(key);
                self.values.push(value);
                proof {
                    let n = before.keys@.len() as int;
                    assert(self.keys@[n]@ == key@);
                    assert forall|i: int, j: int| 0 <= i < j < self.keys@.len() implies self.keys@[i]@
                        != self.keys@[j]@ by {
                        if j == n {
                            assert(before.keys@[i]@ == self.keys@[i]@);
                            assert(before.holds(self.keys@[i]@));
                        } else {
                            assert(before.keys@[i]@ != before.keys@[j]@);
                        }
                    }
                    assert(self.keys() =~= before.keys().push(key@));
                    assert forall|k: Seq<char>| self@.contains_key(k) <==> before@.insert(
                        key@,
                        value,
                    ).contains_key(k) by {
                        if self@.contains_key(k) {
                            let j = self.slot(k);
                            if j < n {
                                assert(before.keys@[j]@ == k);
                                assert(before.holds(k));
                            }
                        }
                        if before@.contains_key(k) {
                            let j = before.slot(k);
                            assert(self.keys@[j]@ == k);
                            assert(self.holds(k));
                        }
                        if k == key@ {
                            assert(self.holds(k));
                        }
                    }
                    assert forall|k: Seq<char>| #[trigger] self@.contains_key(k) implies self@[k]
                        == before@.insert(key@, value)[k] by {
                        let j = self.slot(k);
                        self.slot_of_key(j);
                        if j < n {
                            assert(before.keys@[j]@ == k);
                            before.slot_of_key(j);
                        }
                    }
                    assert(self@ =~= before@.insert(key@, value));
                }
            },
        }
    }

    /// Takes `key` and its value out, if the key is there. The other keys
    /// keep their order.
    pub fn remove(&mut self, key: &str) -> (taken: Option<V>)
        requires
            old(self).wf(),
        ensures
            final(self).wf(),
            final(self)@ == old(self)@.remove(key@),
            match taken {
                Some(value) => old(self)@.contains_key(key@) && value == old(self)@[key@],
                None => !old(self)@.contains_key(key@),
            },
            final(self).keys() == without(old(self).keys(), key@),
    {
        let ghost before = *self;
        match self.position(key) {
            Some(i) => {
                proof {
                    before.slot_of_key(i as int);
                }
                let _ = self.keys.remove(i);
                let value = self.values.remove(i);
                proof {
                    let n = before.keys@.len() as int;
                    assert forall|a: int, b: int| 0 <= a < b < self.keys@.len() implies self.keys@[a]@
                        != self.keys@[b]@ by {
                        let a0 = if a < i { a } else { a + 1 };
                        let b0 = if b < i { b } else { b + 1 };
                        assert(self.keys@[a] == before.keys@[a0]);
                        assert(self.keys@[b] == before.keys@[b0]);
                        assert(before.keys@[a0]@ != before.keys@[b0]@);
                    }
                    assert forall|k: Seq<char>| self@.contains_key(k) <==> before@.remove(
                        key@,
                    ).contains_key(k) by {
                        if self@.contains_key(k) {
                            let j = self.slot(k);
                            let j0 = if j < i { j } else { j + 1 };
                            assert(before.keys@[j0]@ == k);
                            assert(before.holds(k));
                            if j0 < i {
                                assert(before.keys@[j0]@ != before.keys@[i as int]@);
                            } else {
                                assert(before.keys@[i as int]@ != before.keys@[j0]@);
                            }
                        }
                        if before@.contains_key(k) && k != key@ {
                            let j0 = before.slot(k);
                            let j = if j0 < i { j0 } else { j0 - 1 };
                            assert(self.keys@[j]@ == k);
                            assert(self.holds(k));
                        }
                    }
                    assert forall|k: Seq<char>| #[trigger] self@.contains_key(k) implies self@[k]
                        == before@.remove(key@)[k] by {
                        let j = self.slot(k);
                        self.slot_of_key(j);
                        let j0 = if j < i { j } else { j + 1 };
                        assert(before.keys@[j0]@ == k);
                        before.slot_of_key(j0);
                    }
                    assert(self@ =~= before@.remove(key@));
                    before.keys_after_removal(key@, i as int);
                    assert(self.keys() =~= before.keys().remove(i as int));
                }
                Some(value)
            },
            None => {
                proof {
                    before.keys_without_absent(key@);
                    assert(self@ =~= before@.remove(key@));
                }
                None
            },
        }
    }

    /// Taking an absent key out of the keys leaves them as they are.
    proof fn keys_without_absent(&self, key: Seq<char>)
        requires
            !self.keys().contains(key),
        ensures
            without(self.keys(), key) == self.keys(),
    {
        keep_all_other(self.keys(), key);
    }

    /// Taking out the key at place `i` is filtering the keys by "is not that
    /// key".
    proof fn keys_after_removal(&self, key: Seq<char>, i: int)
        requires
            self.wf(),
            0 <= i < self.keys().len(),
            self.keys()[i] == key,
        ensures
            without(self.keys(), key) == self.keys().remove(i),
    {
        let keys = self.keys();
        assert(keys.no_duplicates()) by {
            self.keys_are_the_domain();
        }
        drop_the_one(keys, key, i);
    }
}

/// The keys other than `key`, in their order.
pub open spec fn without(keys: Seq<Seq<char>>, key: Seq<char>) -> Seq<Seq<char>> {
    keys.filter(|k: Seq<char>| k != key)
}

/// Filtering by "is not `key`" keeps a sequence without `key` whole.
proof fn keep_all_other(keys: Seq<Seq<char>>, key: Seq<char>)
    requires
        !keys.contains(key),
    ensures
        without(keys, key) == keys,
    decreases keys.len(),
{
    reveal(Seq::filter);
    if keys.len() > 0 {
        assert(!keys.drop_last().contains(key)) by {
            if keys.drop_last().contains(key) {
                let j = choose|j: int| 0 <= j < keys.drop_last().len() && keys.drop_last()[j] == key;
                assert(keys[j] == key);
            }
        }
        keep_all_other(keys.drop_last(), key);
        assert(keys.last() != key) by {
            if keys.last() == key {
                assert(keys[keys.len() - 1] == key);
            }
        }
        assert(keys.drop_last().push(keys.last()) =~= keys);
    }
}

/// In a sequence without repeats, filtering by "is not `key`" takes out the
/// one place where `key` stands.
proof fn drop_the_one(keys: Seq<Seq<char>>, key: Seq<char>, i: int)
    requires
        keys.no_duplicates(),
        0 <= i < keys.len(),
        keys[i] == key,
    ensures
        without(keys, key) == keys.remove(i),
    decreases keys.len(),
{
    reveal(Seq::filter);
    let front = keys.drop_last();
    if i == keys.len() - 1 {
        assert(!front.contains(key)) by {
            if front.contains(key) {
                let j = choose|j: int| 0 <= j < front.len() && front[j] == key;
                assert(keys[j] == keys[i]);
            }
        }
        keep_all_other(front, key);
        assert(keys.remove(i) =~= front);
    } else {
        assert(front.no_duplicates());
        assert(front[i] == key);
        drop_the_one(front, key, i);
        assert(keys.last() != key) by {
            if keys.last() == key {
                assert(keys[keys.len() - 1] == keys[i]);
            }
        }
        assert(keys.remove(i) =~= front.remove(i).push(keys.last()));
    }
}

} // verus!
