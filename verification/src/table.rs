//! The table from the name of a singleton to the address of the slot that
//! holds the pointer to its instance.

use vstd::prelude::*;

verus! {

/// A table from names to slot addresses. No name occurs twice.
pub struct SingletonMap {
    names: Vec<String>,
    slots: Vec<usize>,
}

/// Whether one of the names is `key`.
pub open spec fn has_name(names: Seq<String>, key: Seq<char>) -> bool {
    exists|i: int| 0 <= i < names.len() && (#[trigger] names[i])@ == key
}

/// An index at which `key` stands.
pub open spec fn index_of(names: Seq<String>, key: Seq<char>) -> int {
    choose|i: int| 0 <= i < names.len() && (#[trigger] names[i])@ == key
}

/// No two of the names are the same text.
pub open spec fn distinct(names: Seq<String>) -> bool {
    forall|i: int, j: int|
        0 <= i < j < names.len() ==> (#[trigger] names[i])@ != (#[trigger] names[j])@
}

impl View for SingletonMap {
    type V = Map<Seq<char>, usize>;

    closed spec fn view(&self) -> Map<Seq<char>, usize> {
        Map::new(
            |key: Seq<char>| has_name(self.names@, key),
            |key: Seq<char>| self.slots@[index_of(self.names@, key)],
        )
    }
}

impl SingletonMap {
    /// One slot for each name, no name twice.
    #[verifier::type_invariant]
    pub closed spec fn inv(self) -> bool {
        &&& self.names@.len() == self.slots@.len()
        &&& distinct(self.names@)
        &&& self@.dom().finite()
        &&& self@.dom().len() == self.names@.len()
    }

    /// The empty table.
    pub fn new() -> (table: SingletonMap)
        ensures
            table@ == Map::<Seq<char>, usize>::empty(),
    {
        let names: Vec<String> = Vec::new();
        let slots: Vec<usize> = Vec::new();
        proof {
            let table = SingletonMap { names, slots };
            assert(table@ =~= Map::<Seq<char>, usize>::empty());
        }
        SingletonMap { names, slots }
    }

    /// The number of names in the table.
    pub fn len(&self) -> (n: usize)
        ensures
            self@.dom().finite(),
            n == self@.dom().len(),
    {
        proof {
            use_type_invariant(self);
        }
        self.names.len()
    }

    fn position(&self, name: &String) -> (found: Option<usize>)
        ensures
            match found {
                Some(i) => i < self.names@.len() && self.names@[i as int]@ == name@,
                None => !has_name(self.names@, name@),
            },
    {
        let mut i: usize = 0;
        while i < self.names.len()
            invariant
                i <= self.names@.len(),
                forall|j: int| 0 <= j < i ==> (#[trigger] self.names@[j])@ != name@,
            decreases self.names@.len() - i,
        {
            if self.names[i] == *name {
                return Some(i);
            }
            i = i + 1;
        }
        None
    }

    /// The slot that the table holds for the name, if it holds one.
    pub fn get(&self, name: &str) -> (slot: Option<usize>)
        ensures
            slot == if self@.dom().contains(name@) {
                Some(self@[name@])
            } else {
                None
            },
    {
        proof {
            use_type_invariant(self);
        }
        let key = name.to_owned();
        match self.position(&key) {
            Some(i) => {
                proof {
                    let chosen = index_of(self.names@, name@);
                    assert(self.names@[i as int]@ == name@);
                    assert(chosen == i) by {
                        if chosen < i {
                            assert(self.names@[chosen]@ != self.names@[i as int]@);
                        } else if i < chosen {
                            assert(self.names@[i as int]@ != self.names@[chosen]@);
                        }
                    }
                }
                Some(self.slots[i])
            },
            None => None,
        }
    }

    /// Puts the name into the table with the given slot. Where the table
    /// held the name already, the new slot takes the place of the old one.
    pub fn insert(&mut self, name: String, slot: usize)
        ensures
            final(self)@ == old(self)@.insert(name@, slot),
    {
        proof {
            use_type_invariant(&*self);
        }
        let ghost before = *self;
        let mut taken = SingletonMap::new();
        core::mem::swap(self, &mut taken);
        let found = taken.position(&name);
        let SingletonMap { mut names, mut slots } = taken;
        let ghost key_view = name@;
        match found {
            Some(i) => {
                slots.set(i, slot);
            },
            None => {
                names.push(name);
                slots.push(slot);
            },
        }
        let ghost after = SingletonMap { names, slots };
        proof {
            let n = before.names@.len() as int;
            if found is Some {
                let i = found->0 as int;
                assert forall|key: Seq<char>| has_name(names@, key) implies #[trigger] after@[key]
                    == before@.insert(key_view, slot)[key] by {
                    let chosen = index_of(names@, key);
                    if key == key_view {
                        assert(chosen == i) by {
                            if chosen < i {
                                assert(names@[chosen]@ != names@[i]@);
                            } else if i < chosen {
                                assert(names@[i]@ != names@[chosen]@);
                            }
                        }
                    } else {
                        assert(chosen != i);
                    }
                }
                assert(after@ =~= before@.insert(key_view, slot));
                assert(before@.dom().contains(key_view));
                assert(before@.insert(key_view, slot).dom() =~= before@.dom());
            } else {
                assert(names@[n]@ == key_view);
                assert forall|i: int, j: int| 0 <= i < j < names@.len() implies (
                #[trigger] names@[i])@ != (#[trigger] names@[j])@ by {
                    if j == n {
                        assert(names@[i] == before.names@[i]);
                    } else {
                        assert(names@[i] == before.names@[i]);
                        assert(names@[j] == before.names@[j]);
                    }
                }
                assert forall|key: Seq<char>| has_name(names@, key) <==> (has_name(
                    before.names@,
                    key,
                ) || key == key_view) by {
                    if has_name(names@, key) {
                        let i = choose|i: int| 0 <= i < names@.len() && (#[trigger] names@[i])@ == key;
                        if i < n {
                            assert(before.names@[i]@ == key);
                        }
                    }
                    if has_name(before.names@, key) {
                        let i = choose|i: int|
                            0 <= i < before.names@.len() && (#[trigger] before.names@[i])@ == key;
                        assert(names@[i]@ == key);
                    }
                }
                assert forall|key: Seq<char>| has_name(names@, key) implies #[trigger] after@[key]
                    == before@.insert(key_view, slot)[key] by {
                    let chosen = index_of(names@, key);
                    if key == key_view {
                        assert(chosen == n) by {
                            if chosen < n {
                                assert(names@[chosen]@ != names@[n]@);
                            }
                        }
                    } else {
                        assert(chosen < n);
                        assert(before.names@[chosen]@ == key);
                        let earlier = index_of(before.names@, key);
                        assert(earlier == chosen) by {
                            if earlier < chosen {
                                assert(before.names@[earlier]@ != before.names@[chosen]@);
                            } else if chosen < earlier {
                                assert(before.names@[chosen]@ != before.names@[earlier]@);
                            }
                        }
                    }
                }
                assert(after@ =~= before@.insert(key_view, slot));
                assert(!before@.dom().contains(key_view));
            }
        }
        *self = SingletonMap { names, slots };
    }
}

} // verus!
