use vstd::prelude::*;

use crate::entity::Entity;
use crate::selector::list_contains;

verus! {

/// Per-entity class-name lists, keyed by entity index.
///
/// An entity that was never given a class, or whose slot lies past the
/// end, reads as having no classes, so lookups are total. Each list is
/// kept free of duplicates.
pub struct ClassMap {
    pub entries: Vec<Vec<String>>,
}

impl ClassMap {
    /// The class names of `e`.
    pub open spec fn spec_classes(&self, e: Entity) -> Seq<Seq<char>> {
        if e.spec_index() < self.entries@.len() && !e.spec_is_null() {
            self.entries@[e.spec_index() as int].deep_view()
        } else {
            Seq::empty()
        }
    }

    pub fn new() -> (s: Self)
        ensures
            forall|e: Entity| s.spec_classes(e) == Seq::<Seq<char>>::empty(),
    {
        ClassMap { entries: Vec::new() }
    }

    /// True if `e` carries the class `name`.
    pub fn has_class(&self, e: Entity, name: &String) -> (b: bool)
        ensures
            b == self.spec_classes(e).contains(name@),
    {
        if e.is_null() {
            return false;
        }
        let idx = e.index() as usize;
        if idx < self.entries.len() {
            list_contains(&self.entries[idx], name)
        } else {
            false
        }
    }

    /// Give `e` the class `name`; a class it already carries is not
    /// duplicated. The null entity is left untouched.
    pub fn insert_class(&mut self, e: Entity, name: &str)
        ensures
            e.spec_is_null() ==> *final(self) == *old(self),
            !e.spec_is_null() ==> final(self).spec_classes(e) == if old(self).spec_classes(
                e,
            ).contains(name@) {
                old(self).spec_classes(e)
            } else {
                old(self).spec_classes(e).push(name@)
            },
            forall|e2: Entity|
                e2.spec_index() != e.spec_index() ==> final(self).spec_classes(e2) == old(
                    self,
                ).spec_classes(e2),
    {
        if e.is_null() {
            return;
        }
        let idx = e.index() as usize;
        while self.entries.len() <= idx
            invariant
                idx < 0xFFFF_FFFFusize,
                forall|e2: Entity| self.spec_classes(e2) == old(self).spec_classes(e2),
            decreases idx + 1 - self.entries.len(),
        {
            self.entries.push(Vec::new());
        }
        let owned = name.to_owned();
        if !list_contains(&self.entries[idx], &owned) {
            let ghost before = self.entries@[idx as int].deep_view();
            self.entries[idx].push(owned);
            proof {
                assert(self.entries@[idx as int].deep_view() =~= before.push(name@));
            }
        }
    }

    /// Drop the class `name` from `e`, wherever it occurs.
    pub fn remove_class(&mut self, e: Entity, name: &str)
        ensures
            final(self).spec_classes(e) == old(self).spec_classes(e).filter(
                |c: Seq<char>| c != name@,
            ),
            forall|e2: Entity|
                e2.spec_index() != e.spec_index() ==> final(self).spec_classes(e2) == old(
                    self,
                ).spec_classes(e2),
    {
        if e.is_null() {
            proof {
                assert(old(self).spec_classes(e).filter(|c: Seq<char>| c != name@)
                    =~= Seq::<Seq<char>>::empty());
            }
            return;
        }
        let idx = e.index() as usize;
        if idx >= self.entries.len() {
            proof {
                assert(old(self).spec_classes(e).filter(|c: Seq<char>| c != name@)
                    =~= Seq::<Seq<char>>::empty());
            }
            return;
        }
        let ghost pred = |c: Seq<char>| c != name@;
        let owned = name.to_owned();
        let mut kept: Vec<String> = Vec::new();
        let list_len = self.entries[idx].len();
        let mut j: usize = 0;
        while j < list_len
            invariant
                idx < self.entries@.len(),
                list_len == self.entries@[idx as int]@.len(),
                j <= list_len,
                owned@ == name@,
                pred == (|c: Seq<char>| c != name@),
                self == old(self),
                kept.deep_view() == self.entries@[idx as int].deep_view().subrange(
                    0,
                    j as int,
                ).filter(pred),
            decreases list_len - j,
        {
            let ghost dv = self.entries@[idx as int].deep_view();
            let ghost kept_before = kept.deep_view();
            let keep = !self.entries[idx][j].eq(&owned);
            if keep {
                let c = self.entries[idx][j].clone();
                kept.push(c);
                proof {
                    assert(kept.deep_view() =~= kept_before.push(dv[j as int]));
                }
            }
            j = j + 1;
            proof {
                reveal(Seq::filter);
                let pre = dv.subrange(0, j - 1);
                let cur = dv.subrange(0, j as int);
                assert(cur.drop_last() =~= pre);
                assert(cur.last() == dv[j - 1]);
            }
        }
        proof {
            let dv = self.entries@[idx as int].deep_view();
            assert(dv.subrange(0, dv.len() as int) =~= dv);
        }
        self.entries[idx] = kept;
    }

    /// Drop every class of `e`.
    pub fn remove_entity(&mut self, e: Entity)
        ensures
            final(self).spec_classes(e) == Seq::<Seq<char>>::empty(),
            forall|e2: Entity|
                e2.spec_index() != e.spec_index() ==> final(self).spec_classes(e2) == old(
                    self,
                ).spec_classes(e2),
    {
        if e.is_null() {
            return;
        }
        let idx = e.index() as usize;
        if idx < self.entries.len() {
            self.entries[idx] = Vec::new();
            proof {
                assert(self.spec_classes(e) =~= Seq::<Seq<char>>::empty());
            }
        }
    }
}

} // verus!
