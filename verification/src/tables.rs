//! Association tables: finite maps from texts or from numbers, kept as entry
//! lists without repeated keys.
use vstd::prelude::*;

use crate::text::same_text;

verus! {

/// The entries of `map` whose value satisfies `kept`.
pub open spec fn kept_entries<K, W>(map: Map<K, W>, kept: spec_fn(W) -> bool) -> Map<K, W> {
    Map::new(|key: K| map.contains_key(key) && kept(map[key]), |key: K| map[key])
}

/// A finite map from texts.
pub struct NameTable<V> {
    entries: Vec<(String, V)>,
}

impl<V: View> View for NameTable<V> {
    type V = Map<Seq<char>, V::V>;

    closed spec fn view(&self) -> Map<Seq<char>, V::V> {
        Map::new(
            |key: Seq<char>| self.has_key(key),
            |key: Seq<char>| self.entry_value(self.key_index(key)),
        )
    }
}

impl<V: View> NameTable<V> {
    /// The number of entries.
    pub closed spec fn count(&self) -> nat {
        self.entries@.len()
    }

    /// The key of entry `index`.
    pub closed spec fn entry_key(&self, index: int) -> Seq<char> {
        self.entries@[index].0@
    }

    /// The value of entry `index`.
    pub closed spec fn entry_value(&self, index: int) -> V::V {
        self.entries@[index].1@
    }

    spec fn has_key(&self, key: Seq<char>) -> bool {
        exists|index: int| 0 <= index < self.count() && #[trigger] self.entry_key(index) == key
    }

    spec fn key_index(&self, key: Seq<char>) -> int {
        choose|index: int| 0 <= index < self.count() && #[trigger] self.entry_key(index) == key
    }

    /// No key occurs twice.
    pub closed spec fn wf(&self) -> bool {
        forall|left: int, right: int|
            0 <= left < right < self.count() ==> #[trigger] self.entry_key(left)
                != #[trigger] self.entry_key(right)
    }

    /// Every entry is what the table holds under its key, and every key held
    /// belongs to one entry.
    pub proof fn lemma_entries(&self)
        requires
            self.wf(),
        ensures
            forall|index: int| #![trigger self.entry_key(index)]
                0 <= index < self.count() ==> self@.contains_key(self.entry_key(index))
                    && self@[self.entry_key(index)] == self.entry_value(index),
            forall|key: Seq<char>| #[trigger]
                self@.contains_key(key) ==> exists|index: int|
                    0 <= index < self.count() && #[trigger] self.entry_key(index) == key,
            forall|left: int, right: int| #![trigger self.entry_key(left), self.entry_key(right)]
                0 <= left < right < self.count() ==> self.entry_key(left) != self.entry_key(right),
    {
        assert forall|index: int| #![trigger self.entry_key(index)]
            0 <= index < self.count() implies self@.contains_key(self.entry_key(index))
            && self@[self.entry_key(index)] == self.entry_value(index) by {
            let key = self.entry_key(index);
            assert(self.has_key(key));
            let found = self.key_index(key);
            assert(0 <= found < self.count() && self.entry_key(found) == key);
            if found < index {
                assert(self.entry_key(found) != self.entry_key(index));
            } else if index < found {
                assert(self.entry_key(index) != self.entry_key(found));
            }
        }
    }

    /// The table holds as many keys as it has entries.
    pub proof fn lemma_count(&self)
        requires
            self.wf(),
        ensures
            self@.dom().finite(),
            self@.dom().len() == self.count(),
    {
        let indices = vstd::set_lib::set_int_range(0, self.count() as int);
        let key_of = |index: int| self.entry_key(index);
        self.lemma_entries();
        vstd::set_lib::lemma_int_range(0, self.count() as int);
        assert forall|key: Seq<char>| self@.dom().contains(key) == indices.map(key_of).contains(
            key,
        ) by {
            if self@.contains_key(key) {
                let at = choose|at: int|
                    0 <= at < self.count() && #[trigger] self.entry_key(at) == key;
                assert(indices.contains(at) && key_of(at) == key);
            }
            if indices.map(key_of).contains(key) {
                let at = choose|at: int| indices.contains(at) && key == #[trigger] key_of(at);
                assert(self@.contains_key(self.entry_key(at)));
            }
        }
        assert(indices.map(key_of) =~= self@.dom());
        assert forall|left: int, right: int|
            indices.contains(left) && indices.contains(right) && #[trigger] key_of(left)
                == #[trigger] key_of(right) implies left == right by {
            if left < right {
                assert(self.entry_key(left) != self.entry_key(right));
            } else if right < left {
                assert(self.entry_key(right) != self.entry_key(left));
            }
        }
        vstd::set_lib::lemma_map_size(indices, self@.dom(), key_of);
    }

    pub fn new() -> (table: Self)
        ensures
            table.wf(),
            table@ == Map::<Seq<char>, V::V>::empty(),
    {
        let table = NameTable { entries: Vec::new() };
        assert(table@ =~= Map::<Seq<char>, V::V>::empty());
        table
    }

    pub fn len(&self) -> (count: usize)
        ensures
            count == self.count(),
    {
        self.entries.len()
    }

    pub fn key_at(&self, index: usize) -> (key: &str)
        requires
            index < self.count(),
        ensures
            key@ == self.entry_key(index as int),
    {
        self.entries[index].0.as_str()
    }

    pub fn value_at(&self, index: usize) -> (value: &V)
        requires
            index < self.count(),
        ensures
            value@ == self.entry_value(index as int),
    {
        &self.entries[index].1
    }

    fn position(&self, key: &str) -> (found: Option<usize>)
        requires
            self.wf(),
        ensures
            found is None <==> !self@.contains_key(key@),
            found matches Some(index) ==> index < self.count() && self.entry_key(index as int)
                == key@ && self@[key@] == self.entry_value(index as int),
    {
        let mut index: usize = 0;
        while index < self.entries.len()
            invariant
                self.wf(),
                index <= self.entries@.len(),
                forall|seen: int| 0 <= seen < index ==> #[trigger] self.entry_key(seen) != key@,
            decreases self.entries@.len() - index,
        {
            if same_text(self.entries[index].0.as_str(), key) {
                proof {
                    self.lemma_entries();
                    assert(self.entry_key(index as int) == key@);
                }
                return Some(index);
            }
            assert(self.entry_key(index as int) != key@);
            index = index + 1;
        }
        None
    }

    pub fn contains(&self, key: &str) -> (found: bool)
        requires
            self.wf(),
        ensures
            found == self@.contains_key(key@),
    {
        self.position(key).is_some()
    }

    pub fn get(&self, key: &str) -> (value: Option<&V>)
        requires
            self.wf(),
        ensures
            value is Some <==> self@.contains_key(key@),
            value matches Some(value) ==> value@ == self@[key@],
    {
        match self.position(key) {
            Some(index) => Some(&self.entries[index].1),
            None => None,
        }
    }

    /// Puts `value` under `key`, in place of what stood there.
    pub fn insert(&mut self, key: String, value: V)
        requires
            old(self).wf(),
        ensures
            final(self).wf(),
            final(self)@ == old(self)@.insert(key@, value@),
    {
        let ghost before = *self;
        let found = self.position(key.as_str());
        proof {
            before.lemma_entries();
        }
        match found {
            Some(index) => {
                let ghost kept = key;
                let ghost stored = value;
                self.entries.set(index, (key, value));
                proof {
                    assert forall|at: int| 0 <= at < self.count() implies #[trigger] self.entry_key(
                        at,
                    ) == before.entry_key(at) by {}
                    assert forall|left: int, right: int|
                        0 <= left < right < self.count() implies #[trigger] self.entry_key(left)
                        != #[trigger] self.entry_key(right) by {
                        assert(before.entry_key(left) != before.entry_key(right));
                    }
                    self.lemma_entries();
                    assert(self.entry_key(index as int) == kept@);
                    assert forall|other: Seq<char>|
                        self@.contains_key(other) == before@.insert(kept@, stored@).contains_key(
                            other,
                        ) by {
                        if self@.contains_key(other) {
                            let at = choose|at: int|
                                0 <= at < self.count() && #[trigger] self.entry_key(at) == other;
                            assert(before.entry_key(at) == other);
                        }
                        if before@.contains_key(other) {
                            let at = choose|at: int|
                                0 <= at < before.count() && #[trigger] before.entry_key(at) == other;
                            assert(self.entry_key(at) == other);
                        }
                    }
                    assert forall|other: Seq<char>| #[trigger]
                        self@.contains_key(other) implies self@[other] == before@.insert(
                        kept@,
                        stored@,
                    )[other] by {
                        let at = choose|at: int|
                            0 <= at < self.count() && #[trigger] self.entry_key(at) == other;
                        assert(before.entry_key(at) == other);
                        if at != index {
                            assert(self.entry_value(at) == before.entry_value(at));
                        }
                    }
                    assert(self@ =~= before@.insert(kept@, stored@));
                }
            },
            None => {
                let ghost kept = key;
                let ghost stored = value;
                self.entries.push((key, value));
                proof {
                    let last = before.count() as int;
                    assert(self.entry_key(last) == kept@);
                    assert forall|at: int| 0 <= at < last implies #[trigger] self.entry_key(at)
                        == before.entry_key(at) by {}
                    assert forall|left: int, right: int|
                        0 <= left < right < self.count() implies #[trigger] self.entry_key(left)
                        != #[trigger] self.entry_key(right) by {
                        assert(before@.contains_key(before.entry_key(left)));
                        if right < last {
                            assert(before.entry_key(left) != before.entry_key(right));
                        }
                    }
                    self.lemma_entries();
                    assert forall|other: Seq<char>|
                        self@.contains_key(other) == before@.insert(kept@, stored@).contains_key(
                            other,
                        ) by {
                        if self@.contains_key(other) {
                            let at = choose|at: int|
                                0 <= at < self.count() && #[trigger] self.entry_key(at) == other;
                            if at < last {
                                assert(before.entry_key(at) == other);
                            }
                        }
                        if before@.contains_key(other) {
                            let at = choose|at: int|
                                0 <= at < before.count() && #[trigger] before.entry_key(at) == other;
                            assert(self.entry_key(at) == other);
                        }
                    }
                    assert forall|other: Seq<char>| #[trigger]
                        self@.contains_key(other) implies self@[other] == before@.insert(
                        kept@,
                        stored@,
                    )[other] by {
                        let at = choose|at: int|
                            0 <= at < self.count() && #[trigger] self.entry_key(at) == other;
                        if at < last {
                            assert(before.entry_key(at) == other);
                            assert(self.entry_value(at) == before.entry_value(at));
                        }
                    }
                    assert(self@ =~= before@.insert(kept@, stored@));
                }
            },
        }
    }

    /// Takes out what stands under `key`.
    pub fn remove(&mut self, key: &str) -> (removed: Option<V>)
        requires
            old(self).wf(),
        ensures
            final(self).wf(),
            final(self)@ == old(self)@.remove(key@),
            removed is Some <==> old(self)@.contains_key(key@),
            removed matches Some(value) ==> value@ == old(self)@[key@],
    {
        let ghost before = *self;
        proof {
            before.lemma_entries();
        }
        match self.position(key) {
            Some(index) => {
                let (_, value) = self.take_entry(index);
                Some(value)
            },
            None => {
                assert(self@ =~= before@.remove(key@));
                None
            },
        }
    }

    /// Takes out entry `index`.
    fn take_entry(&mut self, index: usize) -> (taken: (String, V))
        requires
            old(self).wf(),
            index < old(self).count(),
        ensures
            final(self).wf(),
            taken.0@ == old(self).entry_key(index as int),
            taken.1@ == old(self).entry_value(index as int),
            final(self)@ == old(self)@.remove(old(self).entry_key(index as int)),
            final(self).count() == old(self).count() - 1,
            forall|at: int| 0 <= at < index ==> #[trigger] final(self).entry_value(at) == old(
                self,
            ).entry_value(at),
            forall|at: int| 0 <= at < index ==> #[trigger] final(self).entry_key(at) == old(
                self,
            ).entry_key(at),
    {
        let ghost before = *self;
        let ghost key = before.entry_key(index as int);
        proof {
            before.lemma_entries();
        }
        let taken = self.entries.remove(index);
        proof {
            assert(before.entry_key(index as int) == key);
            assert forall|at: int| 0 <= at < self.count() implies #[trigger] self.entry_key(
                at,
            ) == before.entry_key(if at < index { at } else { at + 1 }) by {}
            assert forall|left: int, right: int|
                0 <= left < right < self.count() implies #[trigger] self.entry_key(left)
                != #[trigger] self.entry_key(right) by {
                let from: int = if left < index { left } else { left + 1 };
                let to: int = if right < index { right } else { right + 1 };
                assert(before.entry_key(from) != before.entry_key(to));
            }
            self.lemma_entries();
            assert forall|other: Seq<char>|
                self@.contains_key(other) == before@.remove(key).contains_key(other) by {
                if self@.contains_key(other) {
                    let at = choose|at: int|
                        0 <= at < self.count() && #[trigger] self.entry_key(at) == other;
                    let from: int = if at < index { at } else { at + 1 };
                    assert(before.entry_key(from) == other);
                    if from < index {
                        assert(before.entry_key(from) != before.entry_key(index as int));
                    } else {
                        assert(before.entry_key(index as int) != before.entry_key(from));
                    }
                }
                if before@.contains_key(other) && other != key {
                    let from = choose|at: int|
                        0 <= at < before.count() && #[trigger] before.entry_key(at) == other;
                    let at: int = if from < index { from } else { from - 1 };
                    assert(self.entry_key(at) == other);
                }
            }
            assert forall|other: Seq<char>| #[trigger]
                self@.contains_key(other) implies self@[other] == before@.remove(
                key,
            )[other] by {
                let at = choose|at: int|
                    0 <= at < self.count() && #[trigger] self.entry_key(at) == other;
                let from: int = if at < index { at } else { at + 1 };
                assert(before.entry_key(from) == other);
                assert(self.entry_value(at) == before.entry_value(from));
            }
            assert(self@ =~= before@.remove(key));
        }
        taken
    }

    /// Keeps the entries whose value `keep` accepts.
    pub fn retain<F: Fn(&V) -> bool>(&mut self, keep: F, Ghost(kept): Ghost<spec_fn(V::V) -> bool>)
        requires
            old(self).wf(),
            forall|value: &V| #[trigger] keep.requires((value,)),
            forall|value: &V, accepted: bool| #[trigger]
                keep.ensures((value,), accepted) ==> accepted == kept(value@),
        ensures
            final(self).wf(),
            final(self)@ == kept_entries(old(self)@, kept),
    {
        let ghost before = *self;
        proof {
            before.lemma_entries();
        }
        let mut index: usize = 0;
        while index < self.entries.len()
            invariant
                self.wf(),
                index <= self.entries@.len(),
                forall|value: &V| #[trigger] keep.requires((value,)),
                forall|value: &V, accepted: bool| #[trigger]
                    keep.ensures((value,), accepted) ==> accepted == kept(value@),
                forall|at: int| 0 <= at < index ==> kept(#[trigger] self.entry_value(at)),
                forall|key: Seq<char>| #[trigger]
                    self@.contains_key(key) ==> before@.contains_key(key) && self@[key]
                        == before@[key],
                forall|key: Seq<char>| #[trigger]
                    before@.contains_key(key) && kept(before@[key]) ==> self@.contains_key(key),
            decreases self.entries@.len() - index,
        {
            let ghost current = *self;
            proof {
                current.lemma_entries();
            }
            if keep(&self.entries[index].1) {
                index = index + 1;
            } else {
                let ghost key = current.entry_key(index as int);
                let _ = self.take_entry(index);
                proof {
                    assert(current@.contains_key(key));
                    assert forall|other: Seq<char>| #[trigger]
                        before@.contains_key(other) && kept(before@[other]) implies self@.contains_key(
                        other,
                    ) by {
                        assert(current@.contains_key(other));
                        assert(current@[other] == before@[other]);
                        assert(other != key);
                    }
                }
            }
        }
        proof {
            self.lemma_entries();
            assert forall|key: Seq<char>| #[trigger]
                self@.contains_key(key) implies kept(before@[key]) by {
                let at = choose|at: int|
                    0 <= at < self.count() && #[trigger] self.entry_key(at) == key;
                assert(kept(self.entry_value(at)));
            }
            assert(self@ =~= kept_entries(before@, kept));
        }
    }
}

/// A finite map from numbers.
pub struct IdTable<V> {
    entries: Vec<(u64, V)>,
}

impl<V: View> View for IdTable<V> {
    type V = Map<u64, V::V>;

    closed spec fn view(&self) -> Map<u64, V::V> {
        Map::new(
            |key: u64| self.has_key(key),
            |key: u64| self.entry_value(self.key_index(key)),
        )
    }
}

impl<V: View> IdTable<V> {
    /// The number of entries.
    pub closed spec fn count(&self) -> nat {
        self.entries@.len()
    }

    /// The key of entry `index`.
    pub closed spec fn entry_key(&self, index: int) -> u64 {
        self.entries@[index].0
    }

    /// The value of entry `index`.
    pub closed spec fn entry_value(&self, index: int) -> V::V {
        self.entries@[index].1@
    }

    spec fn has_key(&self, key: u64) -> bool {
        exists|index: int| 0 <= index < self.count() && #[trigger] self.entry_key(index) == key
    }

    spec fn key_index(&self, key: u64) -> int {
        choose|index: int| 0 <= index < self.count() && #[trigger] self.entry_key(index) == key
    }

    /// No key occurs twice.
    pub closed spec fn wf(&self) -> bool {
        forall|left: int, right: int|
            0 <= left < right < self.count() ==> #[trigger] self.entry_key(left)
                != #[trigger] self.entry_key(right)
    }

    /// Every entry is what the table holds under its key, and every key held
    /// belongs to one entry.
    pub proof fn lemma_entries(&self)
        requires
            self.wf(),
        ensures
            forall|index: int| #![trigger self.entry_key(index)]
                0 <= index < self.count() ==> self@.contains_key(self.entry_key(index))
                    && self@[self.entry_key(index)] == self.entry_value(index),
            forall|key: u64| #[trigger]
                self@.contains_key(key) ==> exists|index: int|
                    0 <= index < self.count() && #[trigger] self.entry_key(index) == key,
            forall|left: int, right: int| #![trigger self.entry_key(left), self.entry_key(right)]
                0 <= left < right < self.count() ==> self.entry_key(left) != self.entry_key(right),
    {
        assert forall|index: int| #![trigger self.entry_key(index)]
            0 <= index < self.count() implies self@.contains_key(self.entry_key(index))
            && self@[self.entry_key(index)] == self.entry_value(index) by {
            let key = self.entry_key(index);
            assert(self.has_key(key));
            let found = self.key_index(key);
            assert(0 <= found < self.count() && self.entry_key(found) == key);
            if found < index {
                assert(self.entry_key(found) != self.entry_key(index));
            } else if index < found {
                assert(self.entry_key(index) != self.entry_key(found));
            }
        }
    }

    /// The table holds as many keys as it has entries.
    pub proof fn lemma_count(&self)
        requires
            self.wf(),
        ensures
            self@.dom().finite(),
            self@.dom().len() == self.count(),
    {
        let indices = vstd::set_lib::set_int_range(0, self.count() as int);
        let key_of = |index: int| self.entry_key(index);
        self.lemma_entries();
        vstd::set_lib::lemma_int_range(0, self.count() as int);
        assert forall|key: u64| self@.dom().contains(key) == indices.map(key_of).contains(
            key,
        ) by {
            if self@.contains_key(key) {
                let at = choose|at: int|
                    0 <= at < self.count() && #[trigger] self.entry_key(at) == key;
                assert(indices.contains(at) && key_of(at) == key);
            }
            if indices.map(key_of).contains(key) {
                let at = choose|at: int| indices.contains(at) && key == #[trigger] key_of(at);
                assert(self@.contains_key(self.entry_key(at)));
            }
        }
        assert(indices.map(key_of) =~= self@.dom());
        assert forall|left: int, right: int|
            indices.contains(left) && indices.contains(right) && #[trigger] key_of(left)
                == #[trigger] key_of(right) implies left == right by {
            if left < right {
                assert(self.entry_key(left) != self.entry_key(right));
            } else if right < left {
                assert(self.entry_key(right) != self.entry_key(left));
            }
        }
        vstd::set_lib::lemma_map_size(indices, self@.dom(), key_of);
    }

    pub fn new() -> (table: Self)
        ensures
            table.wf(),
            table@ == Map::<u64, V::V>::empty(),
    {
        let table = IdTable { entries: Vec::new() };
        assert(table@ =~= Map::<u64, V::V>::empty());
        table
    }

    pub fn len(&self) -> (count: usize)
        ensures
            count == self.count(),
    {
        self.entries.len()
    }

    pub fn key_at(&self, index: usize) -> (key: u64)
        requires
            index < self.count(),
        ensures
            key == self.entry_key(index as int),
    {
        self.entries[index].0
    }

    pub fn value_at(&self, index: usize) -> (value: &V)
        requires
            index < self.count(),
        ensures
            value@ == self.entry_value(index as int),
    {
        &self.entries[index].1
    }

    fn position(&self, key: u64) -> (found: Option<usize>)
        requires
            self.wf(),
        ensures
            found is None <==> !self@.contains_key(key),
            found matches Some(index) ==> index < self.count() && self.entry_key(index as int)
                == key && self@[key] == self.entry_value(index as int),
    {
        let mut index: usize = 0;
        while index < self.entries.len()
            invariant
                self.wf(),
                index <= self.entries@.len(),
                forall|seen: int| 0 <= seen < index ==> #[trigger] self.entry_key(seen) != key,
            decreases self.entries@.len() - index,
        {
            if self.entries[index].0 == key {
                proof {
                    self.lemma_entries();
                    assert(self.entry_key(index as int) == key);
                }
                return Some(index);
            }
            assert(self.entry_key(index as int) != key);
            index = index + 1;
        }
        None
    }

    pub fn contains(&self, key: u64) -> (found: bool)
        requires
            self.wf(),
        ensures
            found == self@.contains_key(key),
    {
        self.position(key).is_some()
    }

    pub fn get(&self, key: u64) -> (value: Option<&V>)
        requires
            self.wf(),
        ensures
            value is Some <==> self@.contains_key(key),
            value matches Some(value) ==> value@ == self@[key],
    {
        match self.position(key) {
            Some(index) => Some(&self.entries[index].1),
            None => None,
        }
    }

    /// Puts `value` under `key`, in place of what stood there.
    pub fn insert(&mut self, key: u64, value: V)
        requires
            old(self).wf(),
        ensures
            final(self).wf(),
            final(self)@ == old(self)@.insert(key, value@),
    {
        let ghost before = *self;
        let found = self.position(key);
        proof {
            before.lemma_entries();
        }
        match found {
            Some(index) => {
                let ghost kept = key;
                let ghost stored = value;
                self.entries.set(index, (key, value));
                proof {
                    assert forall|at: int| 0 <= at < self.count() implies #[trigger] self.entry_key(
                        at,
                    ) == before.entry_key(at) by {}
                    assert forall|left: int, right: int|
                        0 <= left < right < self.count() implies #[trigger] self.entry_key(left)
                        != #[trigger] self.entry_key(right) by {
                        assert(before.entry_key(left) != before.entry_key(right));
                    }
                    self.lemma_entries();
                    assert(self.entry_key(index as int) == kept);
                    assert forall|other: u64|
                        self@.contains_key(other) == before@.insert(kept, stored@).contains_key(
                            other,
                        ) by {
                        if self@.contains_key(other) {
                            let at = choose|at: int|
                                0 <= at < self.count() && #[trigger] self.entry_key(at) == other;
                            assert(before.entry_key(at) == other);
                        }
                        if before@.contains_key(other) {
                            let at = choose|at: int|
                                0 <= at < before.count() && #[trigger] before.entry_key(at) == other;
                            assert(self.entry_key(at) == other);
                        }
                    }
                    assert forall|other: u64| #[trigger]
                        self@.contains_key(other) implies self@[other] == before@.insert(
                        kept,
                        stored@,
                    )[other] by {
                        let at = choose|at: int|
                            0 <= at < self.count() && #[trigger] self.entry_key(at) == other;
                        assert(before.entry_key(at) == other);
                        if at != index {
                            assert(self.entry_value(at) == before.entry_value(at));
                        }
                    }
                    assert(self@ =~= before@.insert(kept, stored@));
                }
            },
            None => {
                let ghost kept = key;
                let ghost stored = value;
                self.entries.push((key, value));
                proof {
                    let last = before.count() as int;
                    assert(self.entry_key(last) == kept);
                    assert forall|at: int| 0 <= at < last implies #[trigger] self.entry_key(at)
                        == before.entry_key(at) by {}
                    assert forall|left: int, right: int|
                        0 <= left < right < self.count() implies #[trigger] self.entry_key(left)
                        != #[trigger] self.entry_key(right) by {
                        assert(before@.contains_key(before.entry_key(left)));
                        if right < last {
                            assert(before.entry_key(left) != before.entry_key(right));
                        }
                    }
                    self.lemma_entries();
                    assert forall|other: u64|
                        self@.contains_key(other) == before@.insert(kept, stored@).contains_key(
                            other,
                        ) by {
                        if self@.contains_key(other) {
                            let at = choose|at: int|
                                0 <= at < self.count() && #[trigger] self.entry_key(at) == other;
                            if at < last {
                                assert(before.entry_key(at) == other);
                            }
                        }
                        if before@.contains_key(other) {
                            let at = choose|at: int|
                                0 <= at < before.count() && #[trigger] before.entry_key(at) == other;
                            assert(self.entry_key(at) == other);
                        }
                    }
                    assert forall|other: u64| #[trigger]
                        self@.contains_key(other) implies self@[other] == before@.insert(
                        kept,
                        stored@,
                    )[other] by {
                        let at = choose|at: int|
                            0 <= at < self.count() && #[trigger] self.entry_key(at) == other;
                        if at < last {
                            assert(before.entry_key(at) == other);
                            assert(self.entry_value(at) == before.entry_value(at));
                        }
                    }
                    assert(self@ =~= before@.insert(kept, stored@));
                }
            },
        }
    }

    /// Takes out what stands under `key`.
    pub fn remove(&mut self, key: u64) -> (removed: Option<V>)
        requires
            old(self).wf(),
        ensures
            final(self).wf(),
            final(self)@ == old(self)@.remove(key),
            removed is Some <==> old(self)@.contains_key(key),
            removed matches Some(value) ==> value@ == old(self)@[key],
    {
        let ghost before = *self;
        proof {
            before.lemma_entries();
        }
        match self.position(key) {
            Some(index) => {
                let (_, value) = self.take_entry(index);
                Some(value)
            },
            None => {
                assert(self@ =~= before@.remove(key));
                None
            },
        }
    }

    /// Takes out entry `index`.
    fn take_entry(&mut self, index: usize) -> (taken: (u64, V))
        requires
            old(self).wf(),
            index < old(self).count(),
        ensures
            final(self).wf(),
            taken.0 == old(self).entry_key(index as int),
            taken.1@ == old(self).entry_value(index as int),
            final(self)@ == old(self)@.remove(old(self).entry_key(index as int)),
            final(self).count() == old(self).count() - 1,
            forall|at: int| 0 <= at < index ==> #[trigger] final(self).entry_value(at) == old(
                self,
            ).entry_value(at),
            forall|at: int| 0 <= at < index ==> #[trigger] final(self).entry_key(at) == old(
                self,
            ).entry_key(at),
    {
        let ghost before = *self;
        let ghost key = before.entry_key(index as int);
        proof {
            before.lemma_entries();
        }
        let taken = self.entries.remove(index);
        proof {
            assert(before.entry_key(index as int) == key);
            assert forall|at: int| 0 <= at < self.count() implies #[trigger] self.entry_key(
                at,
            ) == before.entry_key(if at < index { at } else { at + 1 }) by {}
            assert forall|left: int, right: int|
                0 <= left < right < self.count() implies #[trigger] self.entry_key(left)
                != #[trigger] self.entry_key(right) by {
                let from: int = if left < index { left } else { left + 1 };
                let to: int = if right < index { right } else { right + 1 };
                assert(before.entry_key(from) != before.entry_key(to));
            }
            self.lemma_entries();
            assert forall|other: u64|
                self@.contains_key(other) == before@.remove(key).contains_key(other) by {
                if self@.contains_key(other) {
                    let at = choose|at: int|
                        0 <= at < self.count() && #[trigger] self.entry_key(at) == other;
                    let from: int = if at < index { at } else { at + 1 };
                    assert(before.entry_key(from) == other);
                    if from < index {
                        assert(before.entry_key(from) != before.entry_key(index as int));
                    } else {
                        assert(before.entry_key(index as int) != before.entry_key(from));
                    }
                }
                if before@.contains_key(other) && other != key {
                    let from = choose|at: int|
                        0 <= at < before.count() && #[trigger] before.entry_key(at) == other;
                    let at: int = if from < index { from } else { from - 1 };
                    assert(self.entry_key(at) == other);
                }
            }
            assert forall|other: u64| #[trigger]
                self@.contains_key(other) implies self@[other] == before@.remove(
                key,
            )[other] by {
                let at = choose|at: int|
                    0 <= at < self.count() && #[trigger] self.entry_key(at) == other;
                let from: int = if at < index { at } else { at + 1 };
                assert(before.entry_key(from) == other);
                assert(self.entry_value(at) == before.entry_value(from));
            }
            assert(self@ =~= before@.remove(key));
        }
        taken
    }

    /// Keeps the entries whose value `keep` accepts.
    pub fn retain<F: Fn(&V) -> bool>(&mut self, keep: F, Ghost(kept): Ghost<spec_fn(V::V) -> bool>)
        requires
            old(self).wf(),
            forall|value: &V| #[trigger] keep.requires((value,)),
            forall|value: &V, accepted: bool| #[trigger]
                keep.ensures((value,), accepted) ==> accepted == kept(value@),
        ensures
            final(self).wf(),
            final(self)@ == kept_entries(old(self)@, kept),
    {
        let ghost before = *self;
        proof {
            before.lemma_entries();
        }
        let mut index: usize = 0;
        while index < self.entries.len()
            invariant
                self.wf(),
                index <= self.entries@.len(),
                forall|value: &V| #[trigger] keep.requires((value,)),
                forall|value: &V, accepted: bool| #[trigger]
                    keep.ensures((value,), accepted) ==> accepted == kept(value@),
                forall|at: int| 0 <= at < index ==> kept(#[trigger] self.entry_value(at)),
                forall|key: u64| #[trigger]
                    self@.contains_key(key) ==> before@.contains_key(key) && self@[key]
                        == before@[key],
                forall|key: u64| #[trigger]
                    before@.contains_key(key) && kept(before@[key]) ==> self@.contains_key(key),
            decreases self.entries@.len() - index,
        {
            let ghost current = *self;
            proof {
                current.lemma_entries();
            }
            if keep(&self.entries[index].1) {
                index = index + 1;
            } else {
                let ghost key = current.entry_key(index as int);
                let _ = self.take_entry(index);
                proof {
                    assert(current@.contains_key(key));
                    assert forall|other: u64| #[trigger]
                        before@.contains_key(other) && kept(before@[other]) implies self@.contains_key(
                        other,
                    ) by {
                        assert(current@.contains_key(other));
                        assert(current@[other] == before@[other]);
                        assert(other != key);
                    }
                }
            }
        }
        proof {
            self.lemma_entries();
            assert forall|key: u64| #[trigger]
                self@.contains_key(key) implies kept(before@[key]) by {
                let at = choose|at: int|
                    0 <= at < self.count() && #[trigger] self.entry_key(at) == key;
                assert(kept(self.entry_value(at)));
            }
            assert(self@ =~= kept_entries(before@, kept));
        }
    }

    /// Keeps the entries whose key is at least `floor`.
    pub fn keep_from(&mut self, floor: u64)
        requires
            old(self).wf(),
        ensures
            final(self).wf(),
            final(self)@ == Map::new(
                |key: u64| old(self)@.contains_key(key) && key >= floor,
                |key: u64| old(self)@[key],
            ),
    {
        let ghost before = *self;
        proof {
            before.lemma_entries();
        }
        let mut index: usize = 0;
        while index < self.entries.len()
            invariant
                self.wf(),
                index <= self.entries@.len(),
                forall|at: int| 0 <= at < index ==> #[trigger] self.entry_key(at) >= floor,
                forall|key: u64| #[trigger]
                    self@.contains_key(key) ==> before@.contains_key(key) && self@[key]
                        == before@[key],
                forall|key: u64| #[trigger]
                    before@.contains_key(key) && key >= floor ==> self@.contains_key(key),
            decreases self.entries@.len() - index,
        {
            let ghost current = *self;
            proof {
                current.lemma_entries();
            }
            if self.entries[index].0 >= floor {
                index = index + 1;
            } else {
                let _ = self.take_entry(index);
            }
        }
        proof {
            self.lemma_entries();
            assert(self@ =~= Map::new(
                |key: u64| before@.contains_key(key) && key >= floor,
                |key: u64| before@[key],
            ));
        }
    }
}

} // verus!
