use vstd::prelude::*;

use crate::entity::Entity;
use crate::hierarchy::Hierarchy;
use crate::selector::Selector;
use crate::specificity::{lemma_outranks_total, spec_outranks};
use crate::storage::{
    lemma_winner_properties, spec_is_candidate, spec_sorted_by_table, spec_winner, MatchedRule,
};
use crate::style::Style;

verus! {

/// Two facades whose profiles read the same for every entity.
pub open spec fn spec_profiles_eq(s1: Style, s2: Style) -> bool {
    &&& forall|e: Entity| s1.ids.spec_get(e) == s2.ids.spec_get(e)
    &&& forall|e: Entity| s1.elements.spec_get(e) == s2.elements.spec_get(e)
    &&& forall|e: Entity| s1.classes.spec_classes(e) == s2.classes.spec_classes(e)
    &&& forall|e: Entity| s1.pseudo_classes.spec_get(e) == s2.pseudo_classes.spec_get(e)
}

proof fn lemma_entity_matches_cong(s1: Style, s2: Style, sel: Selector, e: Entity)
    requires
        spec_profiles_eq(s1, s2),
    ensures
        s1.spec_entity_matches(sel, e) == s2.spec_entity_matches(sel, e),
{
    assert(s1.ids.spec_get(e) == s2.ids.spec_get(e));
    assert(s1.elements.spec_get(e) == s2.elements.spec_get(e));
    assert(s1.classes.spec_classes(e) == s2.classes.spec_classes(e));
    assert(s1.pseudo_classes.spec_get(e) == s2.pseudo_classes.spec_get(e));
}

proof fn lemma_chain_matches_cong(
    s1: Style,
    s2: Style,
    h: Hierarchy,
    chain: Seq<Selector>,
    k: int,
    e: Entity,
)
    requires
        h.wf(),
        0 <= k < chain.len(),
        spec_profiles_eq(s1, s2),
    ensures
        s1.spec_chain_matches_at(h, chain, k, e) == s2.spec_chain_matches_at(h, chain, k, e),
    decreases k, e.spec_index() as int, 2int,
{
    lemma_entity_matches_cong(s1, s2, chain[k], e);
    lemma_chain_continue_cong(s1, s2, h, chain, k, e);
}

proof fn lemma_chain_continue_cong(
    s1: Style,
    s2: Style,
    h: Hierarchy,
    chain: Seq<Selector>,
    k: int,
    e: Entity,
)
    requires
        h.wf(),
        0 <= k < chain.len(),
        spec_profiles_eq(s1, s2),
    ensures
        s1.spec_chain_continue(h, chain, k, e) == s2.spec_chain_continue(h, chain, k, e),
    decreases k, e.spec_index() as int, 1int,
{
    if k > 0 {
        match chain[k].relation {
            crate::selector::Relation::Parent => {
                match h.spec_parent(e.spec_index() as int) {
                    Some(p) => {
                        lemma_chain_matches_cong(s1, s2, h, chain, k - 1, Entity { index: p as u32 });
                    },
                    None => {},
                }
            },
            crate::selector::Relation::Ancestor => {
                lemma_anc_matches_cong(s1, s2, h, chain, k - 1, e);
            },
            crate::selector::Relation::Unchained => {},
        }
    }
}

proof fn lemma_anc_matches_cong(
    s1: Style,
    s2: Style,
    h: Hierarchy,
    chain: Seq<Selector>,
    k: int,
    e: Entity,
)
    requires
        h.wf(),
        0 <= k < chain.len(),
        spec_profiles_eq(s1, s2),
    ensures
        s1.spec_anc_matches(h, chain, k, e) == s2.spec_anc_matches(h, chain, k, e),
    decreases k, e.spec_index() as int, 0int,
{
    match h.spec_parent(e.spec_index() as int) {
        Some(p) => {
            let pe = Entity { index: p as u32 };
            lemma_entity_matches_cong(s1, s2, chain[k], pe);
            if s1.spec_entity_matches(chain[k], pe) {
                lemma_chain_continue_cong(s1, s2, h, chain, k, pe);
            } else {
                lemma_anc_matches_cong(s1, s2, h, chain, k, pe);
            }
        },
        None => {},
    }
}

proof fn lemma_matched_upto_cong(s1: Style, s2: Style, h: Hierarchy, e: Entity, n: int)
    requires
        h.wf(),
        spec_profiles_eq(s1, s2),
        s1.rule_selectors == s2.rule_selectors,
        s1.rule_specificities == s2.rule_specificities,
    ensures
        s1.spec_matched_upto(h, e, n) == s2.spec_matched_upto(h, e, n),
    decreases n,
{
    if n > 0 {
        lemma_matched_upto_cong(s1, s2, h, e, n - 1);
        if 0 <= n - 1 < s1.rule_selectors@.len() {
            let chain = s1.rule_selectors@[n - 1]@;
            if chain.len() > 0 {
                lemma_chain_matches_cong(s1, s2, h, chain, chain.len() - 1, e);
            }
        }
    }
}

/// Resolution is deterministic: which rules match an entity is a pure
/// function of the rule table, the entity profiles and the hierarchy, so
/// two facades in the same state — or one facade asked twice with no
/// intervening mutation — select the same matched rules, and every
/// storage's cascade winner and resolved value follow from that selection
/// alone.
pub proof fn lemma_resolution_deterministic(s1: Style, s2: Style, h: Hierarchy, e: Entity)
    requires
        h.wf(),
        spec_profiles_eq(s1, s2),
        s1.rule_selectors == s2.rule_selectors,
        s1.rule_specificities == s2.rule_specificities,
    ensures
        s1.spec_matched(h, e) == s2.spec_matched(h, e),
{
    lemma_matched_upto_cong(s1, s2, h, e, s1.rule_selectors@.len() as int);
}

/// Structure of the matched-rule list: rule ids below `n`, each carrying
/// its table specificity, in strictly increasing id order, and complete
/// for the rules that match.
proof fn lemma_matched_upto_elems(s: Style, h: Hierarchy, e: Entity, n: int)
    requires
        s.table_wf(),
        0 <= n <= s.rule_selectors@.len(),
    ensures
        ({
            let ms = s.spec_matched_upto(h, e, n);
            &&& forall|k: int|
                0 <= k < ms.len() ==> (#[trigger] ms[k]).rule_id < n && ms[k].specificity
                    == s.rule_specificities@[ms[k].rule_id as int] && s.spec_rule_matches(
                    h,
                    ms[k].rule_id as int,
                    e,
                )
            &&& forall|k1: int, k2: int|
                0 <= k1 < k2 < ms.len() ==> (#[trigger] ms[k1]).rule_id < (
                #[trigger] ms[k2]).rule_id
            &&& forall|id: int|
                0 <= id < n && s.spec_rule_matches(h, id, e) ==> exists|k: int|
                    0 <= k < ms.len() && (#[trigger] ms[k]).rule_id == id
        }),
    decreases n,
{
    vstd::std_specs::vec::axiom_spec_len(&s.rule_selectors);
    if n > 0 {
        lemma_matched_upto_elems(s, h, e, n - 1);
        let pre = s.spec_matched_upto(h, e, n - 1);
        let ms = s.spec_matched_upto(h, e, n);
        assert forall|id: int|
            0 <= id < n && s.spec_rule_matches(h, id, e) implies exists|k: int|
            0 <= k < ms.len() && (#[trigger] ms[k]).rule_id == id by {
            if id == n - 1 {
                assert(ms == pre.push(
                    MatchedRule {
                        rule_id: (n - 1) as usize,
                        specificity: s.rule_specificities@[n - 1],
                    },
                ));
                assert(ms[ms.len() - 1].rule_id == id);
            } else {
                let k = choose|k: int| 0 <= k < pre.len() && (#[trigger] pre[k]).rule_id == id;
                assert(ms[k].rule_id == id);
            }
        }
    }
}

/// The matched-rule list of an entity is in table order: specificities
/// never increase along it.
pub proof fn lemma_matched_in_table_order(s: Style, h: Hierarchy, e: Entity)
    requires
        s.table_wf(),
    ensures
        spec_sorted_by_table(s.spec_matched(h, e)),
{
    let n = s.rule_selectors@.len() as int;
    lemma_matched_upto_elems(s, h, e, n);
    let ms = s.spec_matched(h, e);
    assert forall|i: int, j: int| 0 <= i < j < ms.len() implies !spec_outranks(
        #[trigger] ms[j].specificity,
        #[trigger] ms[i].specificity,
    ) by {
        let idi = ms[i].rule_id as int;
        let idj = ms[j].rule_id as int;
        assert(spec_outranks(s.rule_specificities@[idi], s.rule_specificities@[idj]) || (
        s.rule_specificities@[idi] == s.rule_specificities@[idj] && s.rule_decls@[idi]
            > s.rule_decls@[idj]));
        lemma_outranks_total(ms[i].specificity, ms[j].specificity);
    }
}

/// For two rules that both match an entity and both assign a value to one
/// property, the one whose chain specificity outranks the other's wins
/// the cascade over it, whatever their declaration order: the outranked
/// rule `j` is never the winner.
pub proof fn lemma_higher_specificity_wins<T>(
    s: Style,
    h: Hierarchy,
    e: Entity,
    rv: Seq<Option<T>>,
    i: int,
    j: int,
)
    requires
        s.table_wf(),
        s.spec_rule_matches(h, i, e),
        s.spec_rule_matches(h, j, e),
        0 <= i < rv.len() && rv[i] is Some,
        0 <= j < rv.len() && rv[j] is Some,
        spec_outranks(s.rule_specificities@[i], s.rule_specificities@[j]),
    ensures
        spec_winner(rv, s.spec_matched(h, e)) matches Some(w) && w.rule_id != j,
{
    let n = s.rule_selectors@.len() as int;
    let ms = s.spec_matched(h, e);
    lemma_matched_upto_elems(s, h, e, n);
    lemma_matched_in_table_order(s, h, e);
    lemma_winner_properties(rv, ms);
    let ki = choose|k: int| 0 <= k < ms.len() && (#[trigger] ms[k]).rule_id == i;
    assert(spec_is_candidate(rv, ms[ki]));
    match spec_winner(rv, ms) {
        Some(w) => {
            assert(!spec_outranks(ms[ki].specificity, w.specificity));
            if w.rule_id == j {
                let kw = choose|k: int|
                    {
                        &&& 0 <= k < ms.len()
                        &&& ms[k] == w
                        &&& forall|q: int| 0 <= q < k ==> !spec_is_candidate(rv, #[trigger] ms[q])
                    };
                assert(w.specificity == s.rule_specificities@[j]);
                lemma_outranks_total(s.rule_specificities@[i], s.rule_specificities@[j]);
                assert(false);
            }
        },
        None => {
            assert(!spec_is_candidate(rv, ms[ki]));
            assert(false);
        },
    }
}

/// For two rules of equal specificity that both match an entity and both
/// assign a value to one property, the one declared later in the loaded
/// input wins the tie: the earlier-declared rule `j` is never the winner.
pub proof fn lemma_later_declaration_wins<T>(
    s: Style,
    h: Hierarchy,
    e: Entity,
    rv: Seq<Option<T>>,
    i: int,
    j: int,
)
    requires
        s.table_wf(),
        s.spec_rule_matches(h, i, e),
        s.spec_rule_matches(h, j, e),
        0 <= i < rv.len() && rv[i] is Some,
        0 <= j < rv.len() && rv[j] is Some,
        i != j,
        s.rule_specificities@[i] == s.rule_specificities@[j],
        s.rule_decls@[i] > s.rule_decls@[j],
    ensures
        spec_winner(rv, s.spec_matched(h, e)) matches Some(w) && w.rule_id != j,
{
    let n = s.rule_selectors@.len() as int;
    let ms = s.spec_matched(h, e);
    lemma_matched_upto_elems(s, h, e, n);
    lemma_matched_in_table_order(s, h, e);
    lemma_winner_properties(rv, ms);
    let ki = choose|k: int| 0 <= k < ms.len() && (#[trigger] ms[k]).rule_id == i;
    assert(spec_is_candidate(rv, ms[ki]));
    match spec_winner(rv, ms) {
        Some(w) => {
            if w.rule_id == j {
                let kw = choose|k: int|
                    {
                        &&& 0 <= k < ms.len()
                        &&& ms[k] == w
                        &&& forall|q: int| 0 <= q < k ==> !spec_is_candidate(rv, #[trigger] ms[q])
                    };
                // the winner is the first candidate, so rule i cannot
                // stand before it
                assert(ms[kw].rule_id == j);
                if ki < kw {
                    assert(!spec_is_candidate(rv, ms[ki]));
                    assert(false);
                }
                if ki == kw {
                    assert(false);
                }
                // so rule i stands after the winner in the table, and the
                // table order then forces its declaration to be older
                assert(ms[kw].rule_id < ms[ki].rule_id);
                assert(spec_outranks(s.rule_specificities@[j], s.rule_specificities@[i]) || (
                s.rule_specificities@[j] == s.rule_specificities@[i] && s.rule_decls@[j]
                    > s.rule_decls@[i]));
                lemma_outranks_total(s.rule_specificities@[i], s.rule_specificities@[j]);
                assert(false);
            }
        },
        None => {
            assert(!spec_is_candidate(rv, ms[ki]));
            assert(false);
        },
    }
}

/// Every element satisfies the filter predicate, so filtering keeps the
/// whole sequence.
proof fn lemma_filter_keeps_all(s: Seq<Seq<char>>, c: Seq<char>)
    requires
        forall|k: int| 0 <= k < s.len() ==> s[k] != c,
    ensures
        s.filter(|x: Seq<char>| x != c) == s,
    decreases s.len(),
{
    reveal(Seq::filter);
    if s.len() > 0 {
        lemma_filter_keeps_all(s.drop_last(), c);
        assert(s.filter(|x: Seq<char>| x != c) =~= s);
    } else {
        assert(s.filter(|x: Seq<char>| x != c) =~= s);
    }
}

/// Round trip of a class edit: adding a class an entity does not carry
/// and then dropping it restores the class list exactly, so resolution
/// afterwards returns to its prior result.
pub proof fn lemma_class_round_trip(before: Seq<Seq<char>>, c: Seq<char>)
    requires
        !before.contains(c),
    ensures
        before.push(c).filter(|x: Seq<char>| x != c) == before,
{
    reveal(Seq::filter);
    let pushed = before.push(c);
    assert(pushed.drop_last() =~= before);
    assert(pushed.last() == c);
    assert forall|k: int| 0 <= k < before.len() implies before[k] != c by {
        assert(before.contains(before[k]));
    }
    lemma_filter_keeps_all(before, c);
}

/// Round trip at the facade: a facade whose entity profiles have returned
/// to a prior state — as after inserting a class an entity did not carry,
/// resolving, and removing it again — selects exactly the prior matched
/// rules for every entity, and with an unchanged rule table every
/// storage's cascade winner is the prior one.
pub proof fn lemma_class_round_trip_resolution(
    s1: Style,
    s3: Style,
    h: Hierarchy,
    target: Entity,
    c: Seq<char>,
    e: Entity,
)
    requires
        h.wf(),
        !s1.classes.spec_classes(target).contains(c),
        s3.classes.spec_classes(target) == s1.classes.spec_classes(target).push(c).filter(
            |x: Seq<char>| x != c,
        ),
        forall|e2: Entity|
            e2.spec_index() != target.spec_index() ==> s3.classes.spec_classes(e2)
                == s1.classes.spec_classes(e2),
        forall|e2: Entity| s3.ids.spec_get(e2) == s1.ids.spec_get(e2),
        forall|e2: Entity| s3.elements.spec_get(e2) == s1.elements.spec_get(e2),
        forall|e2: Entity| s3.pseudo_classes.spec_get(e2) == s1.pseudo_classes.spec_get(e2),
        s3.rule_selectors == s1.rule_selectors,
        s3.rule_specificities == s1.rule_specificities,
    ensures
        s3.spec_matched(h, e) == s1.spec_matched(h, e),
{
    lemma_class_round_trip(s1.classes.spec_classes(target), c);
    assert forall|e2: Entity| s3.classes.spec_classes(e2) == s1.classes.spec_classes(e2) by {
        if e2.spec_index() == target.spec_index() {
            assert(s3.classes.spec_classes(e2) == s3.classes.spec_classes(target)) by {
                if e2.spec_is_null() {
                    assert(s3.classes.spec_classes(e2) =~= Seq::<Seq<char>>::empty());
                }
            }
            assert(s1.classes.spec_classes(e2) == s1.classes.spec_classes(target)) by {
                if e2.spec_is_null() {
                    assert(s1.classes.spec_classes(e2) =~= Seq::<Seq<char>>::empty());
                }
            }
        }
    }
    lemma_resolution_deterministic(s3, s1, h, e);
}

} // verus!
