use vstd::prelude::*;

verus! {

/// Index reserved for the null entity; no real entity carries it.
pub const NULL_INDEX: u32 = 0xFFFF_FFFF;

/// Opaque handle identifying one node in the UI hierarchy.
///
/// The handle is stable for the lifetime of the entity; every per-entity
/// storage in this crate is keyed by it. The null entity stands for "no
/// entity" and is never stored.
#[derive(Clone, Copy, PartialEq, Eq, Structural, Debug)]
pub struct Entity {
    pub index: u32,
}

impl Entity {
    /// The index this handle carries.
    pub open spec fn spec_index(&self) -> u32 {
        self.index
    }

    /// Whether this is the null handle.
    pub open spec fn spec_is_null(&self) -> bool {
        self.index == NULL_INDEX
    }

    pub fn new(index: u32) -> (e: Entity)
        ensures
            e.spec_index() == index,
    {
        Entity { index }
    }

    /// The null entity: a placeholder that no storage ever holds data for.
    pub fn null() -> (e: Entity)
        ensures
            e.spec_is_null(),
    {
        Entity { index: NULL_INDEX }
    }

    #[verifier::when_used_as_spec(spec_index)]
    pub fn index(&self) -> (i: u32)
        ensures
            i == self.spec_index(),
    {
        self.index
    }

    #[verifier::when_used_as_spec(spec_is_null)]
    pub fn is_null(&self) -> (b: bool)
        ensures
            b == self.spec_is_null(),
    {
        self.index == NULL_INDEX
    }
}

} // verus!
