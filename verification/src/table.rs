//! The keyed maps of a snapshot.
use vstd::prelude::*;
use std::sync::Arc;
use crate::state_error::{StateError, StateErrorView};

verus! {

/// What a slot holds: the entity, or the reason why it is not there.
pub type Slot<T> = Arc<Result<T, StateError>>;

/// The mathematical value of a slot.
pub open spec fn slot_view<T: View>(slot: &Result<T, StateError>) -> Result<T::V, StateErrorView> {
    match *slot {
        Ok(entity) => Ok(entity@),
        Err(error) => Err(error@),
    }
}

/// `Arc`'s `clone`: a second pointer to the same allocation, so that both
/// show the same value.
#[verifier::external_body]
pub(crate) fn share<T>(pointer: &Arc<T>) -> (second: Arc<T>)
    ensures
        second == *pointer,
{
    Arc::clone(pointer)
}

/// A map from keys to slots. No key occurs twice; the entries stand in the
/// order in which their keys first came.
#[derive(Debug)]
pub struct Table<T> {
    entries: Vec<(String, Slot<T>)>,
}

impl<T> Table<T> {
    #[verifier::type_invariant]
    spec fn distinct_keys(self) -> bool {
        forall|i: int, j: int|
            0 <= i < j < self.entries@.len() ==> (#[trigger] self.entries@[i]).0@
                != (#[trigger] self.entries@[j]).0@
    }
}

impl<T: View> Table<T> {
    /// The keys, in the order of the entries.
    pub closed spec fn keys(&self) -> Seq<Seq<char>> {
        self.entries@.map_values(|entry: (String, Slot<T>)| entry.0@)
    }

    /// The slots, in the order of the entries.
    pub closed spec fn slots(&self) -> Seq<Result<T::V, StateErrorView>> {
        self.entries@.map_values(|entry: (String, Slot<T>)| slot_view(&*entry.1))
    }

    /// Every key has one slot, and no key occurs twice. This holds of every
    /// table that a program can hold.
    pub open spec fn well_formed(&self) -> bool {
        &&& self.keys().len() == self.slots().len()
        &&& self.keys().no_duplicates()
    }

    /// Whether `key` has a slot.
    pub open spec fn has(&self, key: Seq<char>) -> bool {
        self.keys().contains(key)
    }

    /// The slot of `key`.
    pub open spec fn slot(&self, key: Seq<char>) -> Result<T::V, StateErrorView> {
        self.slots()[self.keys().index_of(key)]
    }

    /// In a well-formed table the entry at `i` is the entry of its key.
    pub proof fn lemma_entry(&self, i: int)
        requires
            self.well_formed(),
            0 <= i < self.keys().len(),
        ensures
            self@.contains_key(self.keys()[i]),
            self@[self.keys()[i]] == self.slots()[i],
    {
        let key = self.keys()[i];
        assert(self.keys().contains(key));
        let j = self.keys().index_of(key);
        assert(self.keys()[j] == key);
    }

    /// An empty table.
    pub fn new() -> (table: Self)
        ensures
            table@ == Map::<Seq<char>, Result<T::V, StateErrorView>>::empty(),
            table.keys().len() == 0,
            table.well_formed(),
    {
        let table = Table { entries: Vec::new() };
        assert(table@ =~= Map::<Seq<char>, Result<T::V, StateErrorView>>::empty());
        table
    }

    /// The number of entries.
    pub fn len(&self) -> (n: usize)
        ensures
            n == self.keys().len(),
            self.well_formed(),
    {
        proof {
            use_type_invariant(self);
            self.lemma_distinct();
        }
        self.entries.len()
    }

    /// The slot of the entry at `i`.
    pub fn slot_at(&self, i: usize) -> (slot: &Slot<T>)
        requires
            i < self.keys().len(),
        ensures
            slot_view(&**slot) == self.slots()[i as int],
    {
        &self.entries[i].1
    }

    /// The slot of `key`, if it has one.
    pub fn get(&self, key: &str) -> (found: Option<&Slot<T>>)
        ensures
            found is Some == self@.contains_key(key@),
            found matches Some(slot) ==> slot_view(&**slot) == self@[key@],
    {
        proof {
            use_type_invariant(self);
            self.lemma_distinct();
        }
        let mut i: usize = 0;
        while i < self.entries.len()
            invariant
                i <= self.entries@.len(),
                self.well_formed(),
                forall|j: int| 0 <= j < i ==> self.keys()[j] != key@,
            decreases self.entries@.len() - i,
        {
            if *self.entries[i].0.as_str() == *key {
                proof {
                    self.lemma_entry(i as int);
                }
                return Some(&self.entries[i].1);
            }
            i += 1;
        }
        None
    }

    /// Puts `slot` under `key`, in place of what was there.
    pub fn insert(&mut self, key: String, slot: Slot<T>)
        ensures
            final(self)@ == old(self)@.insert(key@, slot_view(&*slot)),
    {
        proof {
            use_type_invariant(&*self);
            self.lemma_distinct();
        }
        let ghost before = *self;
        let mut entries: Vec<(String, Slot<T>)> = Vec::new();
        core::mem::swap(&mut self.entries, &mut entries);
        let mut i: usize = 0;
        let mut found: bool = false;
        while i < entries.len() && !found
            invariant
                i <= entries@.len(),
                entries == before.entries,
                before.well_formed(),
                !found ==> forall|j: int| 0 <= j < i ==> before.keys()[j] != key@,
                found ==> i < entries@.len() && before.keys()[i as int] == key@,
            decreases entries@.len() - i + if found { 0int } else { 1int },
        {
            if *entries[i].0.as_str() == *key.as_str() {
                found = true;
            } else {
                i += 1;
            }
        }
        let ghost key_text = key@;
        let ghost slot_model = slot_view(&*slot);
        if found {
            entries.set(i, (key, slot));
        } else {
            entries.push((key, slot));
        }
        proof {
            assert forall|a: int, b: int| 0 <= a < b < entries@.len() implies (
            #[trigger] entries@[a]).0@ != (#[trigger] entries@[b]).0@ by {
                if a < before.keys().len() {
                    assert(before.keys()[a] == before.entries@[a].0@);
                }
                if b < before.keys().len() {
                    assert(before.keys()[b] == before.entries@[b].0@);
                }
            }
        }
        core::mem::swap(&mut self.entries, &mut entries);
        proof {
            let at = if found { i as int } else { before.keys().len() as int };
            assert(self.keys() =~= if found {
                before.keys()
            } else {
                before.keys().push(key_text)
            });
            assert(self.slots() =~= if found {
                before.slots().update(at, slot_model)
            } else {
                before.slots().push(slot_model)
            });
            assert(self.keys()[at] == key_text);
            self.lemma_distinct();
            let goal = before@.insert(key_text, slot_model);
            assert forall|k: Seq<char>| self@.contains_key(k) == goal.contains_key(k) by {
                if self.keys().contains(k) {
                    let n = self.keys().index_of(k);
                    if n < before.keys().len() {
                        assert(before.keys()[n] == k);
                    }
                }
                if before.keys().contains(k) {
                    let n = before.keys().index_of(k);
                    assert(self.keys()[n] == k);
                }
            }
            assert forall|k: Seq<char>| self@.contains_key(k) implies self@[k] == goal[k] by {
                let n = self.keys().index_of(k);
                self.lemma_entry(n);
                if k != key_text {
                    assert(before.keys()[n] == k);
                    before.lemma_entry(n);
                }
            }
            assert(self@ =~= goal);
        }
    }

    proof fn lemma_distinct(&self)
        requires
            self.distinct_keys(),
        ensures
            self.well_formed(),
    {
        assert forall|i: int, j: int|
            0 <= i < self.keys().len() && 0 <= j < self.keys().len() && i != j implies self.keys()[i]
            != self.keys()[j] by {
            if i < j {
                assert(self.entries@[i].0@ != self.entries@[j].0@);
            } else {
                assert(self.entries@[j].0@ != self.entries@[i].0@);
            }
        }
    }
}

impl<T: View> View for Table<T> {
    type V = Map<Seq<char>, Result<T::V, StateErrorView>>;

    /// The map from each key to its slot.
    open spec fn view(&self) -> Map<Seq<char>, Result<T::V, StateErrorView>> {
        Map::new(|key: Seq<char>| self.has(key), |key: Seq<char>| self.slot(key))
    }
}

impl<T: View> Clone for Table<T> {
    /// A second table over the same slots.
    fn clone(&self) -> (copy: Self)
        ensures
            copy@ == self@,
            copy.keys() == self.keys(),
            copy.slots() == self.slots(),
    {
        proof {
            use_type_invariant(self);
        }
        let mut entries: Vec<(String, Slot<T>)> = Vec::new();
        let mut i: usize = 0;
        while i < self.entries.len()
            invariant
                i <= self.entries@.len(),
                entries@.len() == i,
                forall|j: int| 0 <= j < i ==> entries@[j] == self.entries@[j],
            decreases self.entries@.len() - i,
        {
            entries.push((self.entries[i].0.clone(), share(&self.entries[i].1)));
            i += 1;
        }
        assert(entries@ =~= self.entries@);
        Table { entries }
    }
}

} // verus!
