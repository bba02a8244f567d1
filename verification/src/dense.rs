use vstd::prelude::*;

use crate::entity::Entity;

verus! {

/// Sparse map from entity to a value of type `T`, backed by an index-keyed
/// array of slots.
///
/// Absent entries and entries past the end of the backing array read as
/// "no value", so lookups on entities that were never added, or that were
/// removed, are total and fall back to the caller's default. The null
/// entity is never stored.
pub struct DenseStorage<T> {
    pub entries: Vec<Option<T>>,
}

impl<T> DenseStorage<T> {
    /// The value stored for `e`, if any.
    pub open spec fn spec_get(&self, e: Entity) -> Option<T> {
        if e.spec_index() < self.entries@.len() && !e.spec_is_null() {
            self.entries@[e.spec_index() as int]
        } else {
            None
        }
    }

    /// True if the storage holds a value for `e`.
    pub open spec fn spec_contains(&self, e: Entity) -> bool {
        self.spec_get(e) is Some
    }

    pub fn new() -> (s: Self)
        ensures
            forall|e: Entity| s.spec_get(e) is None,
    {
        DenseStorage { entries: Vec::new() }
    }

    /// Store `v` for `e`, replacing any prior value. Storing for the null
    /// entity is a no-op.
    pub fn insert(&mut self, e: Entity, v: T)
        ensures
            e.spec_is_null() ==> *final(self) == *old(self),
            !e.spec_is_null() ==> final(self).spec_get(e) == Some(v),
            forall|e2: Entity|
                e2.spec_index() != e.spec_index() ==> final(self).spec_get(e2) == old(self).spec_get(
                    e2,
                ),
    {
        if e.is_null() {
            return;
        }
        let idx = e.index() as usize;
        while self.entries.len() <= idx
            invariant
                idx < 0xFFFF_FFFFusize,
                forall|e2: Entity| self.spec_get(e2) == old(self).spec_get(e2),
            decreases idx + 1 - self.entries.len(),
        {
            self.entries.push(None);
        }
        self.entries[idx] = Some(v);
    }

    /// Drop the value stored for `e`, if any. Total: absent entries and the
    /// null entity are left as they are.
    pub fn remove(&mut self, e: Entity)
        ensures
            final(self).spec_get(e) is None,
            forall|e2: Entity|
                e2.spec_index() != e.spec_index() ==> final(self).spec_get(e2) == old(self).spec_get(
                    e2,
                ),
    {
        if e.is_null() {
            return;
        }
        let idx = e.index() as usize;
        if idx < self.entries.len() {
            self.entries[idx] = None;
        }
    }

    /// Borrow the value stored for `e`, if any.
    pub fn get(&self, e: Entity) -> (r: Option<&T>)
        ensures
            r is Some <==> self.spec_get(e) is Some,
            r matches Some(v) ==> self.spec_get(e) == Some(*v),
    {
        if e.is_null() {
            return None;
        }
        let idx = e.index() as usize;
        if idx < self.entries.len() {
            self.entries[idx].as_ref()
        } else {
            None
        }
    }
}

impl<T: Copy> DenseStorage<T> {
    /// The value stored for `e`, or `default` if none is.
    pub fn get_or(&self, e: Entity, default: T) -> (r: T)
        ensures
            r == match self.spec_get(e) {
                Some(v) => v,
                None => default,
            },
    {
        match self.get(e) {
            Some(v) => *v,
            None => default,
        }
    }
}

} // verus!
