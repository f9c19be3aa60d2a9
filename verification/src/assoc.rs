//! Small maps kept as lists without repeated keys.

use vstd::prelude::*;
use vstd::string::*;

verus! {

/// A map from numbers.
#[derive(Debug)]
pub struct IdMap<V> {
    pub entries: Vec<(u32, V)>,
}

impl<V> IdMap<V> {
    /// No key occurs twice.
    pub open spec fn wf(self) -> bool {
        forall|i: int, j: int|
            0 <= i < j < self.entries@.len() ==> (#[trigger] self.entries@[i]).0 != (
            #[trigger] self.entries@[j]).0
    }

    /// Whether the entry at `index` is about `key`.
    pub open spec fn holds_at(self, key: u32, index: int) -> bool {
        0 <= index < self.entries@.len() && self.entries@[index].0 == key
    }

    /// The mapping of this list.
    pub open spec fn view(self) -> Map<u32, V> {
        Map::new(
            |key: u32| exists|i: int| self.holds_at(key, i),
            |key: u32| self.entries@[choose|i: int| self.holds_at(key, i)].1,
        )
    }

    proof fn lemma_at(self, index: int)
        requires
            self.wf(),
            0 <= index < self.entries@.len(),
        ensures
            self@.dom().contains(self.entries@[index].0),
            self@[self.entries@[index].0] == self.entries@[index].1,
    {
        let key = self.entries@[index].0;
        assert(self.holds_at(key, index));
        let found = choose|i: int| self.holds_at(key, i);
        assert(self.holds_at(key, found));
        if found < index {
            assert(self.entries@[found].0 != self.entries@[index].0);
        } else if index < found {
            assert(self.entries@[index].0 != self.entries@[found].0);
        }
    }

    pub fn new() -> (map: Self)
        ensures
            map.wf(),
            map@ == Map::<u32, V>::empty(),
    {
        let map = IdMap { entries: Vec::new() };
        proof {
            assert(map@ =~= Map::<u32, V>::empty());
        }
        map
    }

    fn position(&self, key: u32) -> (position: Option<usize>)
        ensures
            match position {
                Some(index) => self.holds_at(key, index as int),
                None => forall|i: int| !self.holds_at(key, i),
            },
    {
        for index in 0..self.entries.len()
            invariant
                forall|i: int| 0 <= i < index ==> !self.holds_at(key, i),
        {
            if self.entries[index].0 == key {
                return Some(index);
            }
        }
        None
    }

    pub fn get(&self, key: u32) -> (value: Option<&V>)
        requires
            self.wf(),
        ensures
            match value {
                Some(value) => self@.dom().contains(key) && *value == self@[key],
                None => !self@.dom().contains(key),
            },
    {
        match self.position(key) {
            Some(index) => {
                proof {
                    self.lemma_at(index as int);
                }
                Some(&self.entries[index].1)
            },
            None => None,
        }
    }

    /// Maps `key` to `value`, whatever it was mapped to before.
    pub fn insert(&mut self, key: u32, value: V)
        requires
            old(self).wf(),
        ensures
            final(self).wf(),
            final(self)@ == old(self)@.insert(key, value),
    {
        let ghost before = *self;
        let ghost mut place: int = self.entries@.len() as int;
        match self.position(key) {
            Some(index) => {
                self.entries[index] = (key, value);
                proof {
                    place = index as int;
                }
            },
            None => {
                self.entries.push((key, value));
            },
        }
        proof {
            let after = *self;
            assert forall|i: int, j: int| 0 <= i < j < after.entries@.len() implies (
            #[trigger] after.entries@[i]).0 != (#[trigger] after.entries@[j]).0 by {
                if after.entries@.len() == before.entries@.len() {
                    assert(before.entries@[i].0 != before.entries@[j].0);
                } else if j == before.entries@.len() {
                    assert(!before.holds_at(key, i));
                } else {
                    assert(before.entries@[i].0 != before.entries@[j].0);
                }
            }
            assert forall|k: u32| #[trigger] after@.dom().contains(k) <==> before@.insert(
                key,
                value,
            ).dom().contains(k) by {
                if after@.dom().contains(k) {
                    let i = choose|i: int| after.holds_at(k, i);
                    assert(after.holds_at(k, i));
                    if k != key {
                        assert(before.holds_at(k, i));
                    }
                }
                if k != key && before@.dom().contains(k) {
                    let i = choose|i: int| before.holds_at(k, i);
                    assert(before.holds_at(k, i));
                    assert(after.holds_at(k, i));
                }
                if k == key {
                    if exists|i: int| before.holds_at(key, i) {
                        let i = choose|i: int| before.holds_at(key, i);
                        assert(after.holds_at(key, i));
                    } else {
                        assert(after.holds_at(key, after.entries@.len() - 1));
                    }
                }
            }
            assert forall|k: u32| #[trigger] after@.dom().contains(k) implies after@[k]
                == before@.insert(key, value)[k] by {
                let i = choose|i: int| after.holds_at(k, i);
                assert(after.holds_at(k, i));
                after.lemma_at(i);
                after.lemma_at(place);
                if k != key {
                    assert(before.holds_at(k, i));
                    before.lemma_at(i);
                }
            }
            assert(after@ =~= before@.insert(key, value));
        }
    }

    /// Forgets `key`.
    pub fn remove(&mut self, key: u32)
        requires
            old(self).wf(),
        ensures
            final(self).wf(),
            final(self)@ == old(self)@.remove(key),
    {
        let ghost before = *self;
        if let Some(index) = self.position(key) {
            let _ = self.entries.remove(index);
            proof {
                let after = *self;
                assert forall|k: u32| #[trigger] after@.dom().contains(k) <==> before@.remove(
                    key,
                ).dom().contains(k) by {
                    if after@.dom().contains(k) {
                        let i = choose|i: int| after.holds_at(k, i);
                        let j = if i < index {
                            i
                        } else {
                            i + 1
                        };
                        assert(after.holds_at(k, i));
                        assert(before.holds_at(k, j));
                        if k == key {
                            assert(before.entries@[j].0 == before.entries@[index as int].0);
                        }
                    }
                    if k != key && before@.dom().contains(k) {
                        let j = choose|i: int| before.holds_at(k, i);
                        assert(before.holds_at(k, j));
                        let i = if j < index {
                            j
                        } else {
                            j - 1
                        };
                        assert(after.holds_at(k, i));
                    }
                }
                assert forall|k: u32| #[trigger] after@.dom().contains(k) implies after@[k]
                    == before@.remove(key)[k] by {
                    let i = choose|i: int| after.holds_at(k, i);
                    let j = if i < index {
                        i
                    } else {
                        i + 1
                    };
                    assert(after.holds_at(k, i));
                    after.lemma_at(i);
                    assert(before.holds_at(k, j));
                    before.lemma_at(j);
                }
                assert(after@ =~= before@.remove(key));
            }
        } else {
            proof {
                assert(!before@.dom().contains(key));
                assert(before@ =~= before@.remove(key));
            }
        }
    }
}

/// Whether some key maps to `value`.
pub open spec fn maps_to(map: Map<u32, u32>, value: u32) -> bool {
    exists|key: u32| #[trigger] map.dom().contains(key) && map[key] == value
}

/// Tells whether some key maps to `value`.
pub fn has_value(map: &IdMap<u32>, value: u32) -> (result: bool)
    requires
        map.wf(),
    ensures
        result == maps_to(map@, value),
{
    for index in 0..map.entries.len()
        invariant
            map.wf(),
            forall|i: int| 0 <= i < index ==> (#[trigger] map.entries@[i]).1 != value,
    {
        if map.entries[index].1 == value {
            proof {
                map.lemma_at(index as int);
                assert(map@.dom().contains(map.entries@[index as int].0));
            }
            return true;
        }
    }
    proof {
        assert forall|key: u32| #[trigger] map@.dom().contains(key) implies map@[key] != value by {
            let i = choose|i: int| map.holds_at(key, i);
            assert(map.holds_at(key, i));
            map.lemma_at(i);
        }
    }
    false
}

/// A map from names to numbers.
#[derive(Debug)]
pub struct NameMap {
    pub entries: Vec<(String, u32)>,
}

impl NameMap {
    /// No name occurs twice.
    pub open spec fn wf(self) -> bool {
        forall|i: int, j: int|
            0 <= i < j < self.entries@.len() ==> (#[trigger] self.entries@[i]).0@ != (
            #[trigger] self.entries@[j]).0@
    }

    /// Whether the entry at `index` is about `name`.
    pub open spec fn holds_at(self, name: Seq<char>, index: int) -> bool {
        0 <= index < self.entries@.len() && self.entries@[index].0@ == name
    }

    /// The mapping of this list.
    pub open spec fn view(self) -> Map<Seq<char>, u32> {
        Map::new(
            |name: Seq<char>| exists|i: int| self.holds_at(name, i),
            |name: Seq<char>| self.entries@[choose|i: int| self.holds_at(name, i)].1,
        )
    }

    pub proof fn lemma_at(self, index: int)
        requires
            self.wf(),
            0 <= index < self.entries@.len(),
        ensures
            self@.dom().contains(self.entries@[index].0@),
            self@[self.entries@[index].0@] == self.entries@[index].1,
    {
        let name = self.entries@[index].0@;
        assert(self.holds_at(name, index));
        let found = choose|i: int| self.holds_at(name, i);
        assert(self.holds_at(name, found));
        if found < index {
            assert(self.entries@[found].0@ != self.entries@[index].0@);
        } else if index < found {
            assert(self.entries@[index].0@ != self.entries@[found].0@);
        }
    }

    pub fn new() -> (map: Self)
        ensures
            map.wf(),
            map@ == Map::<Seq<char>, u32>::empty(),
    {
        let map = NameMap { entries: Vec::new() };
        proof {
            assert(map@ =~= Map::<Seq<char>, u32>::empty());
        }
        map
    }

    fn position(&self, name: &String) -> (position: Option<usize>)
        ensures
            match position {
                Some(index) => self.holds_at(name@, index as int),
                None => forall|i: int| !self.holds_at(name@, i),
            },
    {
        for index in 0..self.entries.len()
            invariant
                forall|i: int| 0 <= i < index ==> !self.holds_at(name@, i),
        {
            if self.entries[index].0 == *name {
                return Some(index);
            }
        }
        None
    }

    pub fn get(&self, name: &String) -> (id: Option<u32>)
        requires
            self.wf(),
        ensures
            match id {
                Some(id) => self@.dom().contains(name@) && id == self@[name@],
                None => !self@.dom().contains(name@),
            },
    {
        match self.position(name) {
            Some(index) => {
                proof {
                    self.lemma_at(index as int);
                }
                Some(self.entries[index].1)
            },
            None => None,
        }
    }

    /// Maps `name` to `id`, whatever it was mapped to before.
    pub fn insert(&mut self, name: String, id: u32)
        requires
            old(self).wf(),
        ensures
            final(self).wf(),
            final(self)@ == old(self)@.insert(name@, id),
    {
        let ghost before = *self;
        let ghost wanted = name@;
        let ghost mut place: int = self.entries@.len() as int;
        match self.position(&name) {
            Some(index) => {
                self.entries[index] = (name, id);
                proof {
                    place = index as int;
                }
            },
            None => {
                self.entries.push((name, id));
            },
        }
        proof {
            let after = *self;
            assert forall|i: int, j: int| 0 <= i < j < after.entries@.len() implies (
            #[trigger] after.entries@[i]).0@ != (#[trigger] after.entries@[j]).0@ by {
                if after.entries@.len() == before.entries@.len() {
                    assert(before.entries@[i].0@ != before.entries@[j].0@);
                } else if j == before.entries@.len() {
                    assert(!before.holds_at(wanted, i));
                } else {
                    assert(before.entries@[i].0@ != before.entries@[j].0@);
                }
            }
            assert forall|n: Seq<char>| #[trigger] after@.dom().contains(n) <==> before@.insert(
                wanted,
                id,
            ).dom().contains(n) by {
                if after@.dom().contains(n) {
                    let i = choose|i: int| after.holds_at(n, i);
                    assert(after.holds_at(n, i));
                    if n != wanted {
                        assert(before.holds_at(n, i));
                    }
                }
                if n != wanted && before@.dom().contains(n) {
                    let i = choose|i: int| before.holds_at(n, i);
                    assert(before.holds_at(n, i));
                    assert(after.holds_at(n, i));
                }
                if n == wanted {
                    if exists|i: int| before.holds_at(wanted, i) {
                        let i = choose|i: int| before.holds_at(wanted, i);
                        assert(after.holds_at(wanted, i));
                    } else {
                        assert(after.holds_at(wanted, after.entries@.len() - 1));
                    }
                }
            }
            assert forall|n: Seq<char>| #[trigger] after@.dom().contains(n) implies after@[n]
                == before@.insert(wanted, id)[n] by {
                let i = choose|i: int| after.holds_at(n, i);
                assert(after.holds_at(n, i));
                after.lemma_at(i);
                after.lemma_at(place);
                if n != wanted {
                    assert(before.holds_at(n, i));
                    before.lemma_at(i);
                }
            }
            assert(after@ =~= before@.insert(wanted, id));
        }
    }

    /// Forgets every name of `id`.
    pub fn remove_id(&mut self, id: u32)
        requires
            old(self).wf(),
        ensures
            final(self).wf(),
            final(self)@ == without_id(old(self)@, id),
    {
        let ghost before = *self;
        let mut index: usize = 0;
        while index < self.entries.len()
            invariant
                index <= self.entries@.len(),
                self.wf(),
                before.wf(),
                forall|i: int| 0 <= i < index ==> (#[trigger] self.entries@[i]).1 != id,
                without_id(self@, id) == without_id(before@, id),
            decreases self.entries@.len() - index,
        {
            if self.entries[index].1 == id {
                let ghost held = *self;
                let _ = self.entries.remove(index);
                proof {
                    let after = *self;
                    assert forall|n: Seq<char>| #[trigger]
                        without_id(after@, id).dom().contains(n) <==> without_id(
                        held@,
                        id,
                    ).dom().contains(n) by {
                        if after@.dom().contains(n) {
                            let i = choose|i: int| after.holds_at(n, i);
                            assert(after.holds_at(n, i));
                            after.lemma_at(i);
                            let j = if i < index {
                                i
                            } else {
                                i + 1
                            };
                            assert(held.holds_at(n, j));
                            held.lemma_at(j);
                        }
                        if held@.dom().contains(n) && held@[n] != id {
                            let j = choose|i: int| held.holds_at(n, i);
                            assert(held.holds_at(n, j));
                            held.lemma_at(j);
                            let i = if j < index {
                                j
                            } else {
                                j - 1
                            };
                            assert(after.holds_at(n, i));
                            after.lemma_at(i);
                        }
                    }
                    assert forall|n: Seq<char>| #[trigger]
                        without_id(after@, id).dom().contains(n) implies without_id(after@, id)[n]
                        == without_id(held@, id)[n] by {
                        let i = choose|i: int| after.holds_at(n, i);
                        assert(after.holds_at(n, i));
                        after.lemma_at(i);
                        let j = if i < index {
                            i
                        } else {
                            i + 1
                        };
                        assert(held.holds_at(n, j));
                        held.lemma_at(j);
                    }
                    assert(without_id(after@, id) =~= without_id(held@, id));
                }
            } else {
                index = index + 1;
            }
        }
        proof {
            let after = *self;
            assert forall|n: Seq<char>| #[trigger] after@.dom().contains(n) implies after@[n]
                != id by {
                let i = choose|i: int| after.holds_at(n, i);
                assert(after.holds_at(n, i));
                after.lemma_at(i);
            }
            assert(after@ =~= without_id(after@, id));
        }
    }
}

/// The names that do not map to `id`.
pub open spec fn without_id(map: Map<Seq<char>, u32>, id: u32) -> Map<Seq<char>, u32> {
    Map::new(|name: Seq<char>| map.dom().contains(name) && map[name] != id, |name: Seq<char>|
        map[name])
}

/// Forgetting an object drops exactly the names that map to it.
pub proof fn law_forgotten_objects_lose_their_names(
    map: Map<Seq<char>, u32>,
    id: u32,
    name: Seq<char>,
)
    ensures
        without_id(map, id).dom().contains(name) <==> map.dom().contains(name) && map[name] != id,
        without_id(map, id).dom().contains(name) ==> without_id(map, id)[name] == map[name],
{
}

/// A value is mapped to exactly if some key has it: storing it makes it so, and
/// storing another value under a new key changes nothing.
pub proof fn law_stored_values_are_mapped_to(map: Map<u32, u32>, key: u32, value: u32, other: u32)
    ensures
        !maps_to(Map::empty(), value),
        maps_to(map.insert(key, value), value),
        !map.dom().contains(key) && other != value ==> (maps_to(map.insert(key, value), other)
            <==> maps_to(map, other)),
{
    assert(map.insert(key, value).dom().contains(key));
    if !map.dom().contains(key) && other != value {
        if maps_to(map, other) {
            let found = choose|found: u32| #[trigger]
                map.dom().contains(found) && map[found] == other;
            assert(map.insert(key, value).dom().contains(found));
        }
        if maps_to(map.insert(key, value), other) {
            let found = choose|found: u32| #[trigger]
                map.insert(key, value).dom().contains(found) && map.insert(key, value)[found]
                    == other;
            assert(map.dom().contains(found));
        }
    }
}

} // verus!
