use vstd::prelude::*;

use crate::entity::{Entity, NULL_INDEX};

verus! {

/// Parent links of the entity tree, queried by the matcher for the
/// ancestor and parent combinators.
///
/// Entities are created in order, so a parent always carries a smaller
/// index than its children; walks towards the root therefore terminate.
pub struct Hierarchy {
    pub parent: Vec<u32>,
}

impl Hierarchy {
    /// Every stored parent link either is the root marker or points at an
    /// earlier entity.
    pub open spec fn wf(&self) -> bool {
        forall|i: int|
            0 <= i < self.parent@.len() ==> (#[trigger] self.parent@[i] == NULL_INDEX
                || self.parent@[i] < i)
    }

    /// Number of entities created so far.
    pub open spec fn spec_len(&self) -> int {
        self.parent@.len() as int
    }

    /// The parent of entity `i`, if `i` is a live entity with one.
    pub open spec fn spec_parent(&self, i: int) -> Option<int> {
        if 0 <= i < self.parent@.len() && i != NULL_INDEX {
            if self.parent@[i] == NULL_INDEX {
                None
            } else {
                Some(self.parent@[i] as int)
            }
        } else {
            None
        }
    }

    pub fn new() -> (h: Hierarchy)
        ensures
            h.wf(),
            h.spec_len() == 0,
    {
        Hierarchy { parent: Vec::new() }
    }

    pub fn len(&self) -> (n: usize)
        ensures
            n == self.spec_len(),
    {
        self.parent.len()
    }

    /// Create a new entity under `parent` and return its handle; pass the
    /// null entity to create a root.
    ///
    /// A parent that is not a live entity counts as the null parent. When
    /// the index space is exhausted no entity is created and the null
    /// handle is returned.
    pub fn create(&mut self, parent: Entity) -> (child: Entity)
        requires
            old(self).wf(),
        ensures
            final(self).wf(),
            old(self).spec_len() < NULL_INDEX ==> {
                &&& child.spec_index() == old(self).spec_len()
                &&& !child.spec_is_null()
                &&& final(self).spec_len() == old(self).spec_len() + 1
                &&& final(self).spec_parent(child.spec_index() as int) == (
                if parent.spec_index() < old(self).spec_len() {
                    Some(parent.spec_index() as int)
                } else {
                    None
                })
                &&& forall|i: int|
                    0 <= i < old(self).spec_len() ==> final(self).spec_parent(i) == old(
                        self,
                    ).spec_parent(i)
            },
            old(self).spec_len() >= NULL_INDEX ==> child.spec_is_null() && *final(self) == *old(
                self,
            ),
    {
        if self.parent.len() >= NULL_INDEX as usize {
            return Entity::null();
        }
        let index = self.parent.len() as u32;
        let link: u32 = if !parent.is_null() && (parent.index() as usize) < self.parent.len() {
            parent.index()
        } else {
            NULL_INDEX
        };
        self.parent.push(link);
        Entity::new(index)
    }

    /// The direct parent of `e`, if `e` is a live entity with one.
    pub fn parent_of(&self, e: Entity) -> (p: Option<Entity>)
        ensures
            match p {
                Some(pe) => self.spec_parent(e.spec_index() as int) == Some(
                    pe.spec_index() as int,
                ) && !pe.spec_is_null(),
                None => self.spec_parent(e.spec_index() as int) is None,
            },
    {
        if e.is_null() {
            return None;
        }
        let idx = e.index() as usize;
        if idx < self.parent.len() {
            let p = self.parent[idx];
            if p == NULL_INDEX {
                None
            } else {
                proof {
                    assert(self.parent@[idx as int] == p);
                }
                Some(Entity::new(p))
            }
        } else {
            None
        }
    }
}

} // verus!
