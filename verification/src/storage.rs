use vstd::prelude::*;

use crate::dense::DenseStorage;
use crate::entity::Entity;
use crate::specificity::{spec_outranks, Specificity};

verus! {

/// One rule that matched an entity during a restyle pass: its id in the
/// rule table and the specificity of its selector chain.
#[derive(Clone, Copy, PartialEq, Eq, Structural, Debug)]
pub struct MatchedRule {
    pub rule_id: usize,
    pub specificity: Specificity,
}

/// Whether `m` names a rule that assigns a value in a storage whose
/// rule-layer contents are `rv`.
pub open spec fn spec_is_candidate<T>(rv: Seq<Option<T>>, m: MatchedRule) -> bool {
    m.rule_id < rv.len() && rv[m.rule_id as int] is Some
}

/// The scan underlying cascade resolution: the first matched rule that
/// assigns a value wins.
///
/// The rule table is ordered by descending specificity with later
/// declarations first among ties, so the first match with a value is the
/// most specific one, and among equally specific ones the one declared
/// last.
pub open spec fn spec_winner_from<T>(
    rv: Seq<Option<T>>,
    ms: Seq<MatchedRule>,
    i: int,
) -> Option<MatchedRule>
    decreases ms.len() - i,
{
    if i < 0 || i >= ms.len() {
        None
    } else if spec_is_candidate(rv, ms[i]) {
        Some(ms[i])
    } else {
        spec_winner_from(rv, ms, i + 1)
    }
}

/// The matched rule whose value wins the cascade for one storage, if any
/// matched rule assigns a value there.
pub open spec fn spec_winner<T>(rv: Seq<Option<T>>, ms: Seq<MatchedRule>) -> Option<MatchedRule> {
    spec_winner_from(rv, ms, 0)
}

/// `ms` is in rule-table order: specificities never increase along it.
pub open spec fn spec_sorted_by_table(ms: Seq<MatchedRule>) -> bool {
    forall|i: int, j: int|
        0 <= i < j < ms.len() ==> !spec_outranks(
            #[trigger] ms[j].specificity,
            #[trigger] ms[i].specificity,
        )
}

/// Typed storage for one non-animatable property: a rule layer keyed by
/// rule id, an inline-override layer keyed by entity, and the link each
/// entity holds to the rule that last won the cascade for it.
///
/// Resolution never fails: an inline override wins if present, else the
/// linked rule's value, else the property's type default.
pub struct PropertyStorage<T> {
    pub default: T,
    pub rule_values: Vec<Option<T>>,
    pub inline: DenseStorage<T>,
    pub links: DenseStorage<usize>,
}

impl<T: Copy> PropertyStorage<T> {
    /// The value rule `id` assigns, if any.
    pub open spec fn spec_rule_value(&self, id: int) -> Option<T> {
        if 0 <= id < self.rule_values@.len() {
            self.rule_values@[id]
        } else {
            None
        }
    }

    /// The resolved value for `e`: inline override first, then the linked
    /// rule's value, then the default.
    pub open spec fn spec_resolved(&self, e: Entity) -> T {
        match self.inline.spec_get(e) {
            Some(v) => v,
            None => match self.links.spec_get(e) {
                Some(l) => match self.spec_rule_value(l as int) {
                    Some(v) => v,
                    None => self.default,
                },
                None => self.default,
            },
        }
    }

    /// No per-entity state is held for `e`.
    pub open spec fn spec_absent(&self, e: Entity) -> bool {
        self.inline.spec_get(e) is None && self.links.spec_get(e) is None
    }

    pub fn new(default: T) -> (s: Self)
        ensures
            s.default == default,
            forall|id: int| s.spec_rule_value(id) is None,
            forall|e: Entity| s.spec_absent(e),
            forall|e: Entity| s.spec_resolved(e) == default,
    {
        PropertyStorage {
            default,
            rule_values: Vec::new(),
            inline: DenseStorage::new(),
            links: DenseStorage::new(),
        }
    }

    /// Record the value rule `rule_id` assigns to this property.
    pub fn insert_rule(&mut self, rule_id: usize, value: T)
        requires
            rule_id < usize::MAX,
        ensures
            final(self).spec_rule_value(rule_id as int) == Some(value),
            forall|id: int|
                id != rule_id ==> final(self).spec_rule_value(id) == old(self).spec_rule_value(id),
            final(self).inline == old(self).inline,
            final(self).links == old(self).links,
            final(self).default == old(self).default,
    {
        while self.rule_values.len() <= rule_id
            invariant
                self.inline == old(self).inline,
                self.links == old(self).links,
                self.default == old(self).default,
                forall|id: int| self.spec_rule_value(id) == old(self).spec_rule_value(id),
            decreases rule_id + 1 - self.rule_values.len(),
        {
            self.rule_values.push(None);
        }
        self.rule_values[rule_id] = Some(value);
    }

    /// Drop the whole rule layer and every link into it, as when a new
    /// stylesheet replaces the table wholesale. Inline overrides survive.
    pub fn clear_rules(&mut self)
        ensures
            forall|id: int| final(self).spec_rule_value(id) is None,
            forall|e: Entity| final(self).links.spec_get(e) is None,
            final(self).inline == old(self).inline,
            final(self).default == old(self).default,
    {
        self.rule_values = Vec::new();
        self.links = DenseStorage::new();
    }

    /// Set an inline override for `e`: it wins over any rule value until
    /// explicitly cleared.
    pub fn insert(&mut self, e: Entity, value: T)
        ensures
            !e.spec_is_null() ==> final(self).spec_resolved(e) == value,
            e.spec_is_null() ==> *final(self) == *old(self),
            forall|e2: Entity|
                e2.spec_index() != e.spec_index() ==> final(self).inline.spec_get(e2) == old(
                    self,
                ).inline.spec_get(e2),
            final(self).links == old(self).links,
            final(self).rule_values == old(self).rule_values,
            final(self).default == old(self).default,
    {
        self.inline.insert(e, value);
    }

    /// Clear the inline override for `e`, letting rule values through
    /// again.
    pub fn remove_override(&mut self, e: Entity)
        ensures
            final(self).inline.spec_get(e) is None,
            forall|e2: Entity|
                e2.spec_index() != e.spec_index() ==> final(self).inline.spec_get(e2) == old(
                    self,
                ).inline.spec_get(e2),
            final(self).links == old(self).links,
            final(self).rule_values == old(self).rule_values,
            final(self).default == old(self).default,
    {
        self.inline.remove(e);
    }

    /// Drop all per-entity state for `e`; afterwards `e` resolves to the
    /// default.
    pub fn remove(&mut self, e: Entity)
        ensures
            final(self).spec_absent(e),
            final(self).spec_resolved(e) == old(self).default,
            forall|e2: Entity|
                e2.spec_index() != e.spec_index() ==> final(self).inline.spec_get(e2) == old(
                    self,
                ).inline.spec_get(e2) && final(self).links.spec_get(e2) == old(
                    self,
                ).links.spec_get(e2),
            final(self).rule_values == old(self).rule_values,
            final(self).default == old(self).default,
    {
        self.inline.remove(e);
        self.links.remove(e);
    }

    /// True if rule `id` assigns a value here.
    pub fn has_rule_value(&self, id: usize) -> (b: bool)
        ensures
            b == (self.spec_rule_value(id as int) is Some),
    {
        id < self.rule_values.len() && self.rule_values[id].is_some()
    }

    /// Scan the matched rules of one entity and pick the cascade winner
    /// for this storage: the first one that assigns a value here.
    pub fn winner(&self, ms: &Vec<MatchedRule>) -> (w: Option<MatchedRule>)
        ensures
            w == spec_winner(self.rule_values@, ms@),
    {
        let ghost rv = self.rule_values@;
        let mut i: usize = 0;
        while i < ms.len()
            invariant
                i <= ms@.len(),
                spec_winner_from(rv, ms@, i as int) == spec_winner(rv, ms@),
                rv == self.rule_values@,
            decreases ms@.len() - i,
        {
            let m = ms[i];
            if self.has_rule_value(m.rule_id) {
                return Some(m);
            }
            i = i + 1;
        }
        None
    }

    /// The value rule `id` assigns, if any.
    pub fn rule_value(&self, id: usize) -> (v: Option<T>)
        ensures
            v == self.spec_rule_value(id as int),
    {
        if id < self.rule_values.len() {
            self.rule_values[id]
        } else {
            None
        }
    }

    /// Point `e`'s link at the given winner (or clear it).
    pub fn set_link(&mut self, e: Entity, w: Option<MatchedRule>)
        ensures
            !e.spec_is_null() ==> final(self).links.spec_get(e) == match w {
                Some(b) => Some(b.rule_id),
                None => None,
            },
            forall|e2: Entity|
                e2.spec_index() != e.spec_index() ==> final(self).links.spec_get(e2) == old(
                    self,
                ).links.spec_get(e2),
            final(self).inline == old(self).inline,
            final(self).rule_values == old(self).rule_values,
            final(self).default == old(self).default,
    {
        match w {
            Some(b) => {
                self.links.insert(e, b.rule_id);
            },
            None => {
                self.links.remove(e);
            },
        }
    }

    /// What one cascade re-link pass does to this storage: `e`'s link
    /// points at the winner among the matched rules, everything else is
    /// untouched.
    pub open spec fn spec_linked(pre: Self, post: Self, e: Entity, ms: Seq<MatchedRule>) -> bool {
        &&& (!e.spec_is_null() ==> post.links.spec_get(e) == match spec_winner(
            pre.rule_values@,
            ms,
        ) {
            Some(w) => Some(w.rule_id),
            None => None::<usize>,
        })
        &&& forall|e2: Entity|
            e2.spec_index() != e.spec_index() ==> post.links.spec_get(e2) == pre.links.spec_get(e2)
        &&& post.inline == pre.inline
        &&& post.rule_values == pre.rule_values
        &&& post.default == pre.default
    }

    /// Re-link `e` to the rule that wins the cascade for it, given the
    /// rules that match `e` in table order.
    pub fn link(&mut self, e: Entity, ms: &Vec<MatchedRule>)
        ensures
            Self::spec_linked(*old(self), *final(self), e, ms@),
    {
        let w = self.winner(ms);
        self.set_link(e, w);
    }

    /// The resolved value for `e`; total, with the type default as the
    /// final fallback.
    pub fn get(&self, e: Entity) -> (v: T)
        ensures
            v == self.spec_resolved(e),
    {
        match self.inline.get(e) {
            Some(v) => *v,
            None => {
                match self.links.get(e) {
                    Some(l) => {
                        let l = *l;
                        if l < self.rule_values.len() {
                            match self.rule_values[l] {
                                Some(v) => v,
                                None => self.default,
                            }
                        } else {
                            self.default
                        }
                    },
                    None => self.default,
                }
            },
        }
    }
}

/// What the winner scan guarantees, stated over any rule-layer contents
/// and any match list in table order.
///
/// If the scan yields a winner `w`, then `w` assigns a value, it stands
/// at some position `wk` of the list before which no matched rule assigns
/// a value, and no matched rule that assigns a value outranks it. If it
/// yields none, no matched rule assigns a value.
pub proof fn lemma_winner_properties<T>(rv: Seq<Option<T>>, ms: Seq<MatchedRule>)
    requires
        spec_sorted_by_table(ms),
    ensures
        match spec_winner(rv, ms) {
            Some(w) => {
                &&& spec_is_candidate(rv, w)
                &&& exists|wk: int|
                    {
                        &&& 0 <= wk < ms.len()
                        &&& ms[wk] == w
                        &&& forall|j: int|
                            0 <= j < wk ==> !spec_is_candidate(rv, #[trigger] ms[j])
                    }
                &&& forall|j: int|
                    0 <= j < ms.len() && spec_is_candidate(rv, #[trigger] ms[j])
                        ==> !spec_outranks(ms[j].specificity, w.specificity)
            },
            None => forall|j: int|
                0 <= j < ms.len() ==> !spec_is_candidate(rv, #[trigger] ms[j]),
        },
{
    lemma_winner_from_properties(rv, ms, 0);
}

/// Invariant of the winner scan, proved by induction over the suffix it
/// has still to visit.
proof fn lemma_winner_from_properties<T>(rv: Seq<Option<T>>, ms: Seq<MatchedRule>, i: int)
    requires
        spec_sorted_by_table(ms),
        0 <= i <= ms.len(),
    ensures
        match spec_winner_from(rv, ms, i) {
            Some(w) => {
                &&& spec_is_candidate(rv, w)
                &&& exists|wk: int|
                    {
                        &&& i <= wk < ms.len()
                        &&& ms[wk] == w
                        &&& forall|j: int|
                            i <= j < wk ==> !spec_is_candidate(rv, #[trigger] ms[j])
                    }
                &&& forall|j: int|
                    i <= j < ms.len() && spec_is_candidate(rv, #[trigger] ms[j])
                        ==> !spec_outranks(ms[j].specificity, w.specificity)
            },
            None => forall|j: int|
                i <= j < ms.len() ==> !spec_is_candidate(rv, #[trigger] ms[j]),
        },
    decreases ms.len() - i,
{
    if i >= ms.len() {
        return;
    }
    if spec_is_candidate(rv, ms[i]) {
        let w = ms[i];
        assert forall|j: int|
            i <= j < ms.len() && spec_is_candidate(rv, #[trigger] ms[j]) implies !spec_outranks(
            ms[j].specificity,
            w.specificity,
        ) by {
            if j > i {
                assert(!spec_outranks(ms[j].specificity, ms[i].specificity));
            } else {
                crate::specificity::lemma_outranks_total(w.specificity, w.specificity);
            }
        }
        assert(ms[i] == w && (forall|j: int| i <= j < i ==> !spec_is_candidate(rv, #[trigger] ms[j])));
    } else {
        lemma_winner_from_properties(rv, ms, i + 1);
        match spec_winner_from(rv, ms, i + 1) {
            Some(w) => {
                let wk = choose|wk: int|
                    {
                        &&& i + 1 <= wk < ms.len()
                        &&& ms[wk] == w
                        &&& forall|j: int|
                            i + 1 <= j < wk ==> !spec_is_candidate(rv, #[trigger] ms[j])
                    };
                assert(i <= wk < ms.len() && ms[wk] == w && (forall|j: int|
                    i <= j < wk ==> !spec_is_candidate(rv, #[trigger] ms[j])));
            },
            None => {},
        }
    }
}

} // verus!
