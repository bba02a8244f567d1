use vstd::prelude::*;

use crate::animatable::AnimatableStorage;
use crate::class_map::ClassMap;
use crate::dense::DenseStorage;
use crate::entity::Entity;
use crate::hash::{hash_name, spec_hash_name};
use crate::hierarchy::Hierarchy;
use crate::animation::AnimationState;
use crate::property::{
    spec_prop_background_color, spec_prop_display, spec_prop_font_color, spec_prop_height,
    spec_prop_left, spec_prop_margin_bottom, spec_prop_margin_left, spec_prop_margin_right,
    spec_prop_margin_top, spec_prop_opacity, spec_prop_padding_bottom, spec_prop_padding_left,
    spec_prop_padding_right, spec_prop_padding_top, spec_prop_top, spec_prop_transition,
    spec_prop_visibility, spec_prop_width, spec_transition_for, Color, Display, Length, Opacity,
    Property, Transition, Visibility,
};
use crate::pseudo::PseudoClasses;
use crate::rule::{spec_chain_specificity, StyleRule};
use crate::selector::{spec_class_subset, Relation, Selector};
use crate::specificity::{spec_outranks, Specificity};
use crate::storage::{MatchedRule, PropertyStorage};
use crate::table::{build_table, spec_decl_present, spec_key_greater, TableEntry};

verus! {

/// The style facade: the rule table, every entity's selector profile, and
/// one typed storage per visual property.
///
/// The rule table is ordered by descending specificity, with ties ordered
/// by descending declaration position, so that during resolution the
/// first matching rule that assigns a value is the cascade winner: the
/// most specific rule, and among equally specific ones the one declared
/// last.
pub struct Style {
    /// Rules handed in programmatically, pending until the next theme
    /// load folds them into the table behind the stylesheet's rules.
    pub style_rules: Vec<StyleRule>,
    /// Selector chain of each rule in the table, by rule id.
    pub rule_selectors: Vec<Vec<Selector>>,
    /// Specificity of each rule's chain, by rule id.
    pub rule_specificities: Vec<Specificity>,
    /// Declaration position each rule had in the loaded input, by rule
    /// id.
    pub rule_decls: Vec<usize>,
    pub ids: DenseStorage<u64>,
    pub elements: DenseStorage<u64>,
    pub classes: ClassMap,
    pub pseudo_classes: DenseStorage<PseudoClasses>,
    pub z_order: DenseStorage<i32>,
    pub display: PropertyStorage<Display>,
    pub visibility: PropertyStorage<Visibility>,
    pub opacity: AnimatableStorage<Opacity>,
    pub left: AnimatableStorage<Length>,
    pub top: AnimatableStorage<Length>,
    pub width: AnimatableStorage<Length>,
    pub height: AnimatableStorage<Length>,
    pub margin_left: PropertyStorage<Length>,
    pub margin_right: PropertyStorage<Length>,
    pub margin_top: PropertyStorage<Length>,
    pub margin_bottom: PropertyStorage<Length>,
    pub padding_left: PropertyStorage<Length>,
    pub padding_right: PropertyStorage<Length>,
    pub padding_top: PropertyStorage<Length>,
    pub padding_bottom: PropertyStorage<Length>,
    pub background_color: AnimatableStorage<Color>,
    pub font_color: AnimatableStorage<Color>,
}

impl Style {
    /// The pseudo-class mask of `e`'s profile; an entity without an entry
    /// has no flags set.
    pub open spec fn spec_pseudo(&self, e: Entity) -> u8 {
        match self.pseudo_classes.spec_get(e) {
            Some(pc) => pc.0,
            None => 0,
        }
    }

    /// One selector matched against `e`'s profile, as read from the
    /// profile storages: every specified selector field must be satisfied
    /// by the profile.
    pub open spec fn spec_entity_matches(&self, sel: Selector, e: Entity) -> bool {
        if sel.asterisk {
            true
        } else {
            &&& (sel.id is Some ==> sel.id == self.ids.spec_get(e))
            &&& (sel.element is Some ==> sel.element == self.elements.spec_get(e))
            &&& spec_class_subset(sel.classes.deep_view(), self.classes.spec_classes(e))
            &&& (sel.pseudo_classes.0 != 0 ==> (sel.pseudo_classes.0 & self.spec_pseudo(e)) != 0)
        }
    }

    /// Selector `k` of a chain matches entity `e`, and the rest of the
    /// chain matches `e`'s lineage.
    pub open spec fn spec_chain_matches_at(
        &self,
        h: Hierarchy,
        chain: Seq<Selector>,
        k: int,
        e: Entity,
    ) -> bool
        decreases k, e.spec_index() as int, 2int,
        when h.wf() && 0 <= k < chain.len()
    {
        &&& self.spec_entity_matches(chain[k], e)
        &&& self.spec_chain_continue(h, chain, k, e)
    }

    /// The part of the chain before selector `k` matches `e`'s lineage,
    /// as selector `k`'s relation demands: `Parent` sends the preceding
    /// selector to `e`'s direct parent, `Ancestor` walks up until an
    /// ancestor matches it. A chain whose stages cannot all be satisfied
    /// fails closed.
    pub open spec fn spec_chain_continue(
        &self,
        h: Hierarchy,
        chain: Seq<Selector>,
        k: int,
        e: Entity,
    ) -> bool
        decreases k, e.spec_index() as int, 1int,
        when h.wf() && 0 <= k < chain.len()
    {
        if k == 0 {
            true
        } else {
            match chain[k].relation {
                Relation::Parent => match h.spec_parent(e.spec_index() as int) {
                    Some(p) => self.spec_chain_matches_at(
                        h,
                        chain,
                        k - 1,
                        Entity { index: p as u32 },
                    ),
                    None => false,
                },
                Relation::Ancestor => self.spec_anc_matches(h, chain, k - 1, e),
                Relation::Unchained => false,
            }
        }
    }

    /// Walking strictly up from `e`: the first ancestor that matches
    /// selector `k` must carry the rest of the chain from there.
    pub open spec fn spec_anc_matches(
        &self,
        h: Hierarchy,
        chain: Seq<Selector>,
        k: int,
        e: Entity,
    ) -> bool
        decreases k, e.spec_index() as int, 0int,
        when h.wf() && 0 <= k < chain.len()
    {
        match h.spec_parent(e.spec_index() as int) {
            Some(p) => {
                let pe = Entity { index: p as u32 };
                if self.spec_entity_matches(chain[k], pe) {
                    self.spec_chain_continue(h, chain, k, pe)
                } else {
                    self.spec_anc_matches(h, chain, k, pe)
                }
            },
            None => false,
        }
    }

    /// Rule `id`'s whole selector chain matches entity `e`.
    pub open spec fn spec_rule_matches(&self, h: Hierarchy, id: int, e: Entity) -> bool {
        0 <= id < self.rule_selectors@.len() && {
            let chain = self.rule_selectors@[id]@;
            chain.len() > 0 && self.spec_chain_matches_at(h, chain, chain.len() - 1, e)
        }
    }

    /// The rules among the first `n` of the table that match `e`, in
    /// table order, each with its specificity.
    pub open spec fn spec_matched_upto(&self, h: Hierarchy, e: Entity, n: int) -> Seq<MatchedRule>
        decreases n,
    {
        if n <= 0 {
            Seq::empty()
        } else {
            let pre = self.spec_matched_upto(h, e, n - 1);
            if self.spec_rule_matches(h, n - 1, e) {
                pre.push(
                    MatchedRule {
                        rule_id: (n - 1) as usize,
                        specificity: self.rule_specificities@[n - 1],
                    },
                )
            } else {
                pre
            }
        }
    }

    /// All rules of the table that match `e`, in table order.
    pub open spec fn spec_matched(&self, h: Hierarchy, e: Entity) -> Seq<MatchedRule> {
        self.spec_matched_upto(h, e, self.rule_selectors@.len() as int)
    }

    /// Well-formedness of the rule table: its three columns line up, each
    /// stored specificity is its chain's, and the order is by descending
    /// specificity with ties by descending declaration position.
    pub open spec fn table_wf(&self) -> bool {
        &&& self.rule_specificities@.len() == self.rule_selectors@.len()
        &&& self.rule_decls@.len() == self.rule_selectors@.len()
        &&& forall|i: int|
            0 <= i < self.rule_selectors@.len() ==> #[trigger] self.rule_specificities@[i]
                == spec_chain_specificity(self.rule_selectors@[i]@)
        &&& forall|i: int, j: int|
            0 <= i < j < self.rule_selectors@.len() ==> spec_outranks(
                #[trigger] self.rule_specificities@[i],
                #[trigger] self.rule_specificities@[j],
            ) || (self.rule_specificities@[i] == self.rule_specificities@[j]
                && self.rule_decls@[i] > self.rule_decls@[j])
    }

    /// One selector matched against `e`'s profile.
    #[verifier::loop_isolation(false)]
    pub fn entity_matches(&self, sel: &Selector, e: Entity) -> (b: bool)
        ensures
            b == self.spec_entity_matches(*sel, e),
    {
        if sel.asterisk {
            return true;
        }
        match sel.id {
            Some(id) => {
                match self.ids.get(e) {
                    Some(pid) => {
                        if id != *pid {
                            return false;
                        }
                    },
                    None => {
                        return false;
                    },
                }
            },
            None => {},
        }
        match sel.element {
            Some(el) => {
                match self.elements.get(e) {
                    Some(pel) => {
                        if el != *pel {
                            return false;
                        }
                    },
                    None => {
                        return false;
                    },
                }
            },
            None => {},
        }
        let mut i: usize = 0;
        while i < sel.classes.len()
            invariant
                i <= sel.classes@.len(),
                forall|k: int|
                    0 <= k < i ==> self.classes.spec_classes(e).contains(
                        #[trigger] sel.classes.deep_view()[k],
                    ),
            decreases sel.classes@.len() - i,
        {
            if !self.classes.has_class(e, &sel.classes[i]) {
                proof {
                    assert(sel.classes.deep_view()[i as int] == sel.classes@[i as int]@);
                    assert(!self.classes.spec_classes(e).contains(
                        sel.classes.deep_view()[i as int],
                    ));
                }
                return false;
            }
            i = i + 1;
        }
        let mask = match self.pseudo_classes.get(e) {
            Some(pc) => pc.0,
            None => 0,
        };
        if sel.pseudo_classes.0 != 0 && (sel.pseudo_classes.0 & mask) == 0 {
            return false;
        }
        true
    }

    /// Selector `k` of a chain matches `e` and the chain before it
    /// matches `e`'s lineage.
    pub fn chain_matches_at(
        &self,
        h: &Hierarchy,
        chain: &Vec<Selector>,
        k: usize,
        e: Entity,
    ) -> (b: bool)
        requires
            h.wf(),
            k < chain@.len(),
        ensures
            b == self.spec_chain_matches_at(*h, chain@, k as int, e),
        decreases k, e.spec_index() as int, 2int,
    {
        if !self.entity_matches(&chain[k], e) {
            return false;
        }
        self.chain_continue(h, chain, k, e)
    }

    fn chain_continue(&self, h: &Hierarchy, chain: &Vec<Selector>, k: usize, e: Entity) -> (b:
        bool)
        requires
            h.wf(),
            k < chain@.len(),
        ensures
            b == self.spec_chain_continue(*h, chain@, k as int, e),
        decreases k, e.spec_index() as int, 1int,
    {
        if k == 0 {
            return true;
        }
        match chain[k].relation {
            Relation::Parent => {
                match h.parent_of(e) {
                    Some(pe) => self.chain_matches_at(h, chain, k - 1, pe),
                    None => false,
                }
            },
            Relation::Ancestor => self.anc_matches(h, chain, k - 1, e),
            Relation::Unchained => false,
        }
    }

    fn anc_matches(&self, h: &Hierarchy, chain: &Vec<Selector>, k: usize, e: Entity) -> (b: bool)
        requires
            h.wf(),
            k < chain@.len(),
        ensures
            b == self.spec_anc_matches(*h, chain@, k as int, e),
        decreases k, e.spec_index() as int, 0int,
    {
        match h.parent_of(e) {
            Some(pe) => {
                if self.entity_matches(&chain[k], pe) {
                    self.chain_continue(h, chain, k, pe)
                } else {
                    self.anc_matches(h, chain, k, pe)
                }
            },
            None => false,
        }
    }

    /// Rule `rule_id`'s whole selector chain matches entity `e`.
    pub fn rule_matches(&self, h: &Hierarchy, rule_id: usize, e: Entity) -> (b: bool)
        requires
            h.wf(),
        ensures
            b == self.spec_rule_matches(*h, rule_id as int, e),
    {
        if rule_id >= self.rule_selectors.len() {
            return false;
        }
        let chain = &self.rule_selectors[rule_id];
        if chain.len() == 0 {
            return false;
        }
        self.chain_matches_at(h, chain, chain.len() - 1, e)
    }

    /// The rules of the table that match `e`, in table order.
    pub fn matched_rules(&self, h: &Hierarchy, e: Entity) -> (ms: Vec<MatchedRule>)
        requires
            h.wf(),
            self.table_wf(),
        ensures
            ms@ == self.spec_matched(*h, e),
    {
        let mut ms: Vec<MatchedRule> = Vec::new();
        let mut i: usize = 0;
        while i < self.rule_selectors.len()
            invariant
                i <= self.rule_selectors@.len(),
                self.table_wf(),
                ms@ == self.spec_matched_upto(*h, e, i as int),
                h.wf(),
            decreases self.rule_selectors@.len() - i,
        {
            if self.rule_matches(h, i, e) {
                ms.push(MatchedRule { rule_id: i, specificity: self.rule_specificities[i] });
            }
            i = i + 1;
        }
        ms
    }
}


/// A stored transition template against the declared timing it should
/// realize: the declared duration and delay, and placeholder endpoint
/// keyframes that instantiation replaces with the captured `from` and
/// `to` values.
pub open spec fn spec_template_matches<T>(
    tpl: Option<AnimationState<T>>,
    timing: Option<(u64, u64)>,
    default: T,
) -> bool {
    match timing {
        Some(t) => match tpl {
            Some(a) => {
                &&& a.duration_ms == t.0
                &&& a.delay_ms == t.1
                &&& a.keyframes@ == seq![(0u16, default), (1000u16, default)]
            },
            None => false,
        },
        None => tpl is None,
    }
}

/// The timing in force after scanning one `transition` declaration list
/// on top of what earlier declarations gave.
pub open spec fn spec_timing_after(
    prev: Option<(u64, u64)>,
    ts: Seq<Transition>,
    name: Seq<char>,
) -> Option<(u64, u64)> {
    match spec_transition_for(ts, name) {
        Some(t) => Some(t),
        None => prev,
    }
}

impl Style {
    /// What rule `i` of the table assigns in every property storage comes
    /// from the declaration block `props`, later assignments overriding
    /// earlier ones and the shorthands feeding their four directional
    /// properties.
    pub open spec fn spec_props_ingested_at(&self, props: Seq<Property>, i: int) -> bool {
        &&& self.display.spec_rule_value(i) == spec_prop_display(props)
        &&& self.visibility.spec_rule_value(i) == spec_prop_visibility(props)
        &&& self.opacity.base.spec_rule_value(i) == spec_prop_opacity(props)
        &&& self.left.base.spec_rule_value(i) == spec_prop_left(props)
        &&& self.top.base.spec_rule_value(i) == spec_prop_top(props)
        &&& self.width.base.spec_rule_value(i) == spec_prop_width(props)
        &&& self.height.base.spec_rule_value(i) == spec_prop_height(props)
        &&& self.margin_left.spec_rule_value(i) == spec_prop_margin_left(props)
        &&& self.margin_right.spec_rule_value(i) == spec_prop_margin_right(props)
        &&& self.margin_top.spec_rule_value(i) == spec_prop_margin_top(props)
        &&& self.margin_bottom.spec_rule_value(i) == spec_prop_margin_bottom(props)
        &&& self.padding_left.spec_rule_value(i) == spec_prop_padding_left(props)
        &&& self.padding_right.spec_rule_value(i) == spec_prop_padding_right(props)
        &&& self.padding_top.spec_rule_value(i) == spec_prop_padding_top(props)
        &&& self.padding_bottom.spec_rule_value(i) == spec_prop_padding_bottom(props)
        &&& self.background_color.base.spec_rule_value(i) == spec_prop_background_color(props)
        &&& self.font_color.base.spec_rule_value(i) == spec_prop_font_color(props)
        &&& spec_template_matches(
            self.opacity.spec_rule_transition(i),
            spec_prop_transition(props, "opacity"@),
            self.opacity.base.default,
        )
        &&& spec_template_matches(
            self.left.spec_rule_transition(i),
            spec_prop_transition(props, "left"@),
            self.left.base.default,
        )
        &&& spec_template_matches(
            self.top.spec_rule_transition(i),
            spec_prop_transition(props, "top"@),
            self.top.base.default,
        )
        &&& spec_template_matches(
            self.width.spec_rule_transition(i),
            spec_prop_transition(props, "width"@),
            self.width.base.default,
        )
        &&& spec_template_matches(
            self.height.spec_rule_transition(i),
            spec_prop_transition(props, "height"@),
            self.height.base.default,
        )
        &&& spec_template_matches(
            self.background_color.spec_rule_transition(i),
            spec_prop_transition(props, "background-color"@),
            self.background_color.base.default,
        )
        &&& spec_template_matches(
            self.font_color.spec_rule_transition(i),
            spec_prop_transition(props, "font-color"@),
            self.font_color.base.default,
        )
    }

    /// Some rule of the table was declared at position `d` of the loaded
    /// input.
    pub open spec fn spec_decl_used(&self, d: int) -> bool {
        exists|i: int|
            0 <= i < self.rule_decls@.len() && (#[trigger] self.rule_decls@[i]) == d
    }

    /// Rule `i` of the table carries what the rule declared at position
    /// `rule_decls[i]` of `input` assigns.
    pub open spec fn spec_rule_ingested(&self, input: Seq<StyleRule>, i: int) -> bool {
        self.spec_props_ingested_at(input[self.rule_decls@[i] as int].properties@, i)
    }

    /// No storage assigns anything at rule id `i`.
    pub open spec fn spec_rule_clear(&self, i: int) -> bool {
        &&& self.display.spec_rule_value(i) is None
        &&& self.visibility.spec_rule_value(i) is None
        &&& self.opacity.base.spec_rule_value(i) is None
        &&& self.left.base.spec_rule_value(i) is None
        &&& self.top.base.spec_rule_value(i) is None
        &&& self.width.base.spec_rule_value(i) is None
        &&& self.height.base.spec_rule_value(i) is None
        &&& self.margin_left.spec_rule_value(i) is None
        &&& self.margin_right.spec_rule_value(i) is None
        &&& self.margin_top.spec_rule_value(i) is None
        &&& self.margin_bottom.spec_rule_value(i) is None
        &&& self.padding_left.spec_rule_value(i) is None
        &&& self.padding_right.spec_rule_value(i) is None
        &&& self.padding_top.spec_rule_value(i) is None
        &&& self.padding_bottom.spec_rule_value(i) is None
        &&& self.background_color.base.spec_rule_value(i) is None
        &&& self.font_color.base.spec_rule_value(i) is None
        &&& self.opacity.spec_rule_transition(i) is None
        &&& self.left.spec_rule_transition(i) is None
        &&& self.top.spec_rule_transition(i) is None
        &&& self.width.spec_rule_transition(i) is None
        &&& self.height.spec_rule_transition(i) is None
        &&& self.background_color.spec_rule_transition(i) is None
        &&& self.font_color.spec_rule_transition(i) is None
    }

    /// A theme load keeps every profile, every inline override, every
    /// named animation and every in-flight transition, and clears every
    /// link into the replaced table.
    pub open spec fn spec_theme_reset(pre: Style, post: Style) -> bool {
        &&& post.ids == pre.ids
        &&& post.elements == pre.elements
        &&& post.classes == pre.classes
        &&& post.pseudo_classes == pre.pseudo_classes
        &&& post.z_order == pre.z_order
        &&& post.display.inline == pre.display.inline
        &&& post.display.default == pre.display.default
        &&& (forall|e: Entity| post.display.links.spec_get(e) is None)
        &&& post.visibility.inline == pre.visibility.inline
        &&& post.visibility.default == pre.visibility.default
        &&& (forall|e: Entity| post.visibility.links.spec_get(e) is None)
        &&& post.margin_left.inline == pre.margin_left.inline
        &&& post.margin_left.default == pre.margin_left.default
        &&& (forall|e: Entity| post.margin_left.links.spec_get(e) is None)
        &&& post.margin_right.inline == pre.margin_right.inline
        &&& post.margin_right.default == pre.margin_right.default
        &&& (forall|e: Entity| post.margin_right.links.spec_get(e) is None)
        &&& post.margin_top.inline == pre.margin_top.inline
        &&& post.margin_top.default == pre.margin_top.default
        &&& (forall|e: Entity| post.margin_top.links.spec_get(e) is None)
        &&& post.margin_bottom.inline == pre.margin_bottom.inline
        &&& post.margin_bottom.default == pre.margin_bottom.default
        &&& (forall|e: Entity| post.margin_bottom.links.spec_get(e) is None)
        &&& post.padding_left.inline == pre.padding_left.inline
        &&& post.padding_left.default == pre.padding_left.default
        &&& (forall|e: Entity| post.padding_left.links.spec_get(e) is None)
        &&& post.padding_right.inline == pre.padding_right.inline
        &&& post.padding_right.default == pre.padding_right.default
        &&& (forall|e: Entity| post.padding_right.links.spec_get(e) is None)
        &&& post.padding_top.inline == pre.padding_top.inline
        &&& post.padding_top.default == pre.padding_top.default
        &&& (forall|e: Entity| post.padding_top.links.spec_get(e) is None)
        &&& post.padding_bottom.inline == pre.padding_bottom.inline
        &&& post.padding_bottom.default == pre.padding_bottom.default
        &&& (forall|e: Entity| post.padding_bottom.links.spec_get(e) is None)
        &&& post.opacity.base.inline == pre.opacity.base.inline
        &&& post.opacity.base.default == pre.opacity.base.default
        &&& (forall|e: Entity| post.opacity.base.links.spec_get(e) is None)
        &&& post.opacity.active == pre.opacity.active
        &&& post.opacity.animations == pre.opacity.animations
        &&& post.left.base.inline == pre.left.base.inline
        &&& post.left.base.default == pre.left.base.default
        &&& (forall|e: Entity| post.left.base.links.spec_get(e) is None)
        &&& post.left.active == pre.left.active
        &&& post.left.animations == pre.left.animations
        &&& post.top.base.inline == pre.top.base.inline
        &&& post.top.base.default == pre.top.base.default
        &&& (forall|e: Entity| post.top.base.links.spec_get(e) is None)
        &&& post.top.active == pre.top.active
        &&& post.top.animations == pre.top.animations
        &&& post.width.base.inline == pre.width.base.inline
        &&& post.width.base.default == pre.width.base.default
        &&& (forall|e: Entity| post.width.base.links.spec_get(e) is None)
        &&& post.width.active == pre.width.active
        &&& post.width.animations == pre.width.animations
        &&& post.height.base.inline == pre.height.base.inline
        &&& post.height.base.default == pre.height.base.default
        &&& (forall|e: Entity| post.height.base.links.spec_get(e) is None)
        &&& post.height.active == pre.height.active
        &&& post.height.animations == pre.height.animations
        &&& post.background_color.base.inline == pre.background_color.base.inline
        &&& post.background_color.base.default == pre.background_color.base.default
        &&& (forall|e: Entity| post.background_color.base.links.spec_get(e) is None)
        &&& post.background_color.active == pre.background_color.active
        &&& post.background_color.animations == pre.background_color.animations
        &&& post.font_color.base.inline == pre.font_color.base.inline
        &&& post.font_color.base.default == pre.font_color.base.default
        &&& (forall|e: Entity| post.font_color.base.links.spec_get(e) is None)
        &&& post.font_color.active == pre.font_color.active
        &&& post.font_color.animations == pre.font_color.animations
    }

    /// A fresh facade: empty table, empty profiles, every property at its
    /// type default.
    pub fn new() -> (s: Style)
        ensures
            s.table_wf(),
            s.rule_selectors@.len() == 0,
            s.style_rules@.len() == 0,
            forall|e: Entity| s.ids.spec_get(e) is None,
            forall|e: Entity| s.elements.spec_get(e) is None,
            forall|e: Entity| s.classes.spec_classes(e) == Seq::<Seq<char>>::empty(),
            forall|e: Entity| s.pseudo_classes.spec_get(e) is None,
            forall|e: Entity| s.z_order.spec_get(e) is None,
            s.display.default == Display::Flex,
            s.visibility.default == Visibility::Visible,
            s.opacity.base.default == Opacity(1000),
            s.left.base.default == Length::Auto,
            s.top.base.default == Length::Auto,
            s.width.base.default == Length::Auto,
            s.height.base.default == Length::Auto,
            s.margin_left.default == Length::Auto,
            s.margin_right.default == Length::Auto,
            s.margin_top.default == Length::Auto,
            s.margin_bottom.default == Length::Auto,
            s.padding_left.default == Length::Auto,
            s.padding_right.default == Length::Auto,
            s.padding_top.default == Length::Auto,
            s.padding_bottom.default == Length::Auto,
            s.background_color.base.default == (Color { r: 0u8, g: 0u8, b: 0u8, a: 0u8 }),
            s.font_color.base.default == (Color { r: 0u8, g: 0u8, b: 0u8, a: 255u8 }),
            forall|i: int| s.spec_rule_clear(i),
            forall|e: Entity| s.display.spec_absent(e) && s.display.spec_resolved(e) == Display::Flex,
            forall|e: Entity|
                s.visibility.spec_absent(e) && s.visibility.spec_resolved(e) == Visibility::Visible,
            forall|e: Entity| s.opacity.spec_absent(e) && s.opacity.spec_current(e) == Opacity(1000),
            forall|e: Entity| s.left.spec_absent(e) && s.left.spec_current(e) == Length::Auto,
            forall|e: Entity| s.top.spec_absent(e) && s.top.spec_current(e) == Length::Auto,
            forall|e: Entity| s.width.spec_absent(e) && s.width.spec_current(e) == Length::Auto,
            forall|e: Entity| s.height.spec_absent(e) && s.height.spec_current(e) == Length::Auto,
            forall|e: Entity|
                s.margin_left.spec_absent(e) && s.margin_left.spec_resolved(e) == Length::Auto,
            forall|e: Entity|
                s.margin_right.spec_absent(e) && s.margin_right.spec_resolved(e) == Length::Auto,
            forall|e: Entity|
                s.margin_top.spec_absent(e) && s.margin_top.spec_resolved(e) == Length::Auto,
            forall|e: Entity|
                s.margin_bottom.spec_absent(e) && s.margin_bottom.spec_resolved(e) == Length::Auto,
            forall|e: Entity|
                s.padding_left.spec_absent(e) && s.padding_left.spec_resolved(e) == Length::Auto,
            forall|e: Entity|
                s.padding_right.spec_absent(e) && s.padding_right.spec_resolved(e) == Length::Auto,
            forall|e: Entity|
                s.padding_top.spec_absent(e) && s.padding_top.spec_resolved(e) == Length::Auto,
            forall|e: Entity|
                s.padding_bottom.spec_absent(e) && s.padding_bottom.spec_resolved(e) == Length::Auto,
            forall|e: Entity|
                s.background_color.spec_absent(e) && s.background_color.spec_current(e) == (Color {
                    r: 0u8,
                    g: 0u8,
                    b: 0u8,
                    a: 0u8,
                }),
            forall|e: Entity|
                s.font_color.spec_absent(e) && s.font_color.spec_current(e) == (Color {
                    r: 0u8,
                    g: 0u8,
                    b: 0u8,
                    a: 255u8,
                }),
    {
        Style {
            style_rules: Vec::new(),
            rule_selectors: Vec::new(),
            rule_specificities: Vec::new(),
            rule_decls: Vec::new(),
            ids: DenseStorage::new(),
            elements: DenseStorage::new(),
            classes: ClassMap::new(),
            pseudo_classes: DenseStorage::new(),
            z_order: DenseStorage::new(),
            display: PropertyStorage::new(Display::Flex),
            visibility: PropertyStorage::new(Visibility::Visible),
            opacity: AnimatableStorage::new(Opacity(1000)),
            left: AnimatableStorage::new(Length::Auto),
            top: AnimatableStorage::new(Length::Auto),
            width: AnimatableStorage::new(Length::Auto),
            height: AnimatableStorage::new(Length::Auto),
            margin_left: PropertyStorage::new(Length::Auto),
            margin_right: PropertyStorage::new(Length::Auto),
            margin_top: PropertyStorage::new(Length::Auto),
            margin_bottom: PropertyStorage::new(Length::Auto),
            padding_left: PropertyStorage::new(Length::Auto),
            padding_right: PropertyStorage::new(Length::Auto),
            padding_top: PropertyStorage::new(Length::Auto),
            padding_bottom: PropertyStorage::new(Length::Auto),
            background_color: AnimatableStorage::new(Color::transparent()),
            font_color: AnimatableStorage::new(Color::rgb(0, 0, 0)),
        }
    }


    /// Rule-layer contents at rule id `r` agree between two facades.
    pub open spec fn spec_rule_layers_eq_at(pre: Style, post: Style, r: int) -> bool {
        &&& post.display.spec_rule_value(r) == pre.display.spec_rule_value(r)
        &&& post.visibility.spec_rule_value(r) == pre.visibility.spec_rule_value(r)
        &&& post.opacity.base.spec_rule_value(r) == pre.opacity.base.spec_rule_value(r)
        &&& post.left.base.spec_rule_value(r) == pre.left.base.spec_rule_value(r)
        &&& post.top.base.spec_rule_value(r) == pre.top.base.spec_rule_value(r)
        &&& post.width.base.spec_rule_value(r) == pre.width.base.spec_rule_value(r)
        &&& post.height.base.spec_rule_value(r) == pre.height.base.spec_rule_value(r)
        &&& post.margin_left.spec_rule_value(r) == pre.margin_left.spec_rule_value(r)
        &&& post.margin_right.spec_rule_value(r) == pre.margin_right.spec_rule_value(r)
        &&& post.margin_top.spec_rule_value(r) == pre.margin_top.spec_rule_value(r)
        &&& post.margin_bottom.spec_rule_value(r) == pre.margin_bottom.spec_rule_value(r)
        &&& post.padding_left.spec_rule_value(r) == pre.padding_left.spec_rule_value(r)
        &&& post.padding_right.spec_rule_value(r) == pre.padding_right.spec_rule_value(r)
        &&& post.padding_top.spec_rule_value(r) == pre.padding_top.spec_rule_value(r)
        &&& post.padding_bottom.spec_rule_value(r) == pre.padding_bottom.spec_rule_value(r)
        &&& post.background_color.base.spec_rule_value(r) == pre.background_color.base.spec_rule_value(r)
        &&& post.font_color.base.spec_rule_value(r) == pre.font_color.base.spec_rule_value(r)
        &&& post.opacity.spec_rule_transition(r) == pre.opacity.spec_rule_transition(r)
        &&& post.left.spec_rule_transition(r) == pre.left.spec_rule_transition(r)
        &&& post.top.spec_rule_transition(r) == pre.top.spec_rule_transition(r)
        &&& post.width.spec_rule_transition(r) == pre.width.spec_rule_transition(r)
        &&& post.height.spec_rule_transition(r) == pre.height.spec_rule_transition(r)
        &&& post.background_color.spec_rule_transition(r) == pre.background_color.spec_rule_transition(r)
        &&& post.font_color.spec_rule_transition(r) == pre.font_color.spec_rule_transition(r)
    }

    /// Everything but the storages' rule layers agrees between two
    /// facades.
    pub open spec fn spec_same_except_rule_layers(pre: Style, post: Style) -> bool {
        &&& post.style_rules == pre.style_rules
        &&& post.rule_selectors == pre.rule_selectors
        &&& post.rule_specificities == pre.rule_specificities
        &&& post.rule_decls == pre.rule_decls
        &&& post.ids == pre.ids
        &&& post.elements == pre.elements
        &&& post.classes == pre.classes
        &&& post.pseudo_classes == pre.pseudo_classes
        &&& post.z_order == pre.z_order
        &&& post.display.inline == pre.display.inline
        &&& post.display.links == pre.display.links
        &&& post.display.default == pre.display.default
        &&& post.visibility.inline == pre.visibility.inline
        &&& post.visibility.links == pre.visibility.links
        &&& post.visibility.default == pre.visibility.default
        &&& post.margin_left.inline == pre.margin_left.inline
        &&& post.margin_left.links == pre.margin_left.links
        &&& post.margin_left.default == pre.margin_left.default
        &&& post.margin_right.inline == pre.margin_right.inline
        &&& post.margin_right.links == pre.margin_right.links
        &&& post.margin_right.default == pre.margin_right.default
        &&& post.margin_top.inline == pre.margin_top.inline
        &&& post.margin_top.links == pre.margin_top.links
        &&& post.margin_top.default == pre.margin_top.default
        &&& post.margin_bottom.inline == pre.margin_bottom.inline
        &&& post.margin_bottom.links == pre.margin_bottom.links
        &&& post.margin_bottom.default == pre.margin_bottom.default
        &&& post.padding_left.inline == pre.padding_left.inline
        &&& post.padding_left.links == pre.padding_left.links
        &&& post.padding_left.default == pre.padding_left.default
        &&& post.padding_right.inline == pre.padding_right.inline
        &&& post.padding_right.links == pre.padding_right.links
        &&& post.padding_right.default == pre.padding_right.default
        &&& post.padding_top.inline == pre.padding_top.inline
        &&& post.padding_top.links == pre.padding_top.links
        &&& post.padding_top.default == pre.padding_top.default
        &&& post.padding_bottom.inline == pre.padding_bottom.inline
        &&& post.padding_bottom.links == pre.padding_bottom.links
        &&& post.padding_bottom.default == pre.padding_bottom.default
        &&& post.opacity.base.inline == pre.opacity.base.inline
        &&& post.opacity.base.links == pre.opacity.base.links
        &&& post.opacity.base.default == pre.opacity.base.default
        &&& post.opacity.active == pre.opacity.active
        &&& post.opacity.animations == pre.opacity.animations
        &&& post.left.base.inline == pre.left.base.inline
        &&& post.left.base.links == pre.left.base.links
        &&& post.left.base.default == pre.left.base.default
        &&& post.left.active == pre.left.active
        &&& post.left.animations == pre.left.animations
        &&& post.top.base.inline == pre.top.base.inline
        &&& post.top.base.links == pre.top.base.links
        &&& post.top.base.default == pre.top.base.default
        &&& post.top.active == pre.top.active
        &&& post.top.animations == pre.top.animations
        &&& post.width.base.inline == pre.width.base.inline
        &&& post.width.base.links == pre.width.base.links
        &&& post.width.base.default == pre.width.base.default
        &&& post.width.active == pre.width.active
        &&& post.width.animations == pre.width.animations
        &&& post.height.base.inline == pre.height.base.inline
        &&& post.height.base.links == pre.height.base.links
        &&& post.height.base.default == pre.height.base.default
        &&& post.height.active == pre.height.active
        &&& post.height.animations == pre.height.animations
        &&& post.background_color.base.inline == pre.background_color.base.inline
        &&& post.background_color.base.links == pre.background_color.base.links
        &&& post.background_color.base.default == pre.background_color.base.default
        &&& post.background_color.active == pre.background_color.active
        &&& post.background_color.animations == pre.background_color.animations
        &&& post.font_color.base.inline == pre.font_color.base.inline
        &&& post.font_color.base.links == pre.font_color.base.links
        &&& post.font_color.base.default == pre.font_color.base.default
        &&& post.font_color.active == pre.font_color.active
        &&& post.font_color.animations == pre.font_color.animations
    }

    /// Push every assignment of one declaration block into its typed
    /// storage under rule id `rule_id`, expanding the margin and padding
    /// shorthands and routing each `transition` declaration to the
    /// storage its property name picks.
    #[verifier::loop_isolation(false)]
    fn ingest_properties(
        &mut self,
        rule_id: usize,
        properties: &Vec<Property>,
        lit_opacity: &String,
        lit_left: &String,
        lit_top: &String,
        lit_width: &String,
        lit_height: &String,
        lit_background: &String,
        lit_font: &String,
    )
        requires
            rule_id < usize::MAX,
            old(self).spec_rule_clear(rule_id as int),
            lit_opacity@ == "opacity"@,
            lit_left@ == "left"@,
            lit_top@ == "top"@,
            lit_width@ == "width"@,
            lit_height@ == "height"@,
            lit_background@ == "background-color"@,
            lit_font@ == "font-color"@,
        ensures
            final(self).spec_props_ingested_at(properties@, rule_id as int),
            forall|r: int|
                r != rule_id ==> Style::spec_rule_layers_eq_at(*old(self), *final(self), r),
            Style::spec_same_except_rule_layers(*old(self), *final(self)),
    {
        let ghost props = properties@;
        let mut j: usize = 0;
        proof {
            assert(props.subrange(0, 0) =~= Seq::<Property>::empty());
        }
        while j < properties.len()
            invariant
                j <= props.len(),
                self.spec_props_ingested_at(props.subrange(0, j as int), rule_id as int),
                forall|r: int|
                    r != rule_id ==> Style::spec_rule_layers_eq_at(*old(self), *self, r),
                Style::spec_same_except_rule_layers(*old(self), *self),
            decreases props.len() - j,
        {
            let ghost snap = *self;
            match &properties[j] {
                Property::Display(v) => {
                    self.display.insert_rule(rule_id, *v);
                },
                Property::Visibility(v) => {
                    self.visibility.insert_rule(rule_id, *v);
                },
                Property::Opacity(v) => {
                    self.opacity.insert_rule(rule_id, *v);
                },
                Property::Left(v) => {
                    self.left.insert_rule(rule_id, *v);
                },
                Property::Top(v) => {
                    self.top.insert_rule(rule_id, *v);
                },
                Property::Width(v) => {
                    self.width.insert_rule(rule_id, *v);
                },
                Property::Height(v) => {
                    self.height.insert_rule(rule_id, *v);
                },
                Property::Margin(v) => {
                    self.margin_left.insert_rule(rule_id, *v);
                    self.margin_right.insert_rule(rule_id, *v);
                    self.margin_top.insert_rule(rule_id, *v);
                    self.margin_bottom.insert_rule(rule_id, *v);
                },
                Property::MarginLeft(v) => {
                    self.margin_left.insert_rule(rule_id, *v);
                },
                Property::MarginRight(v) => {
                    self.margin_right.insert_rule(rule_id, *v);
                },
                Property::MarginTop(v) => {
                    self.margin_top.insert_rule(rule_id, *v);
                },
                Property::MarginBottom(v) => {
                    self.margin_bottom.insert_rule(rule_id, *v);
                },
                Property::Padding(v) => {
                    self.padding_left.insert_rule(rule_id, *v);
                    self.padding_right.insert_rule(rule_id, *v);
                    self.padding_top.insert_rule(rule_id, *v);
                    self.padding_bottom.insert_rule(rule_id, *v);
                },
                Property::PaddingLeft(v) => {
                    self.padding_left.insert_rule(rule_id, *v);
                },
                Property::PaddingRight(v) => {
                    self.padding_right.insert_rule(rule_id, *v);
                },
                Property::PaddingTop(v) => {
                    self.padding_top.insert_rule(rule_id, *v);
                },
                Property::PaddingBottom(v) => {
                    self.padding_bottom.insert_rule(rule_id, *v);
                },
                Property::BackgroundColor(v) => {
                    self.background_color.insert_rule(rule_id, *v);
                },
                Property::FontColor(v) => {
                    self.font_color.insert_rule(rule_id, *v);
                },
                Property::Transition(ts) => {
                    let ghost tseq = ts@;
                    let ghost prefix = props.subrange(0, j as int);
                    let mut t_i: usize = 0;
                    proof {
                        assert(tseq.subrange(0, 0) =~= Seq::<Transition>::empty());
                    }
                    while t_i < ts.len()
                        invariant
                            t_i <= tseq.len(),
                            spec_template_matches(
                                self.opacity.spec_rule_transition(rule_id as int),
                                spec_timing_after(
                                    spec_prop_transition(prefix, "opacity"@),
                                    tseq.subrange(0, t_i as int),
                                    "opacity"@,
                                ),
                                self.opacity.base.default,
                            ),
                            spec_template_matches(
                                self.left.spec_rule_transition(rule_id as int),
                                spec_timing_after(
                                    spec_prop_transition(prefix, "left"@),
                                    tseq.subrange(0, t_i as int),
                                    "left"@,
                                ),
                                self.left.base.default,
                            ),
                            spec_template_matches(
                                self.top.spec_rule_transition(rule_id as int),
                                spec_timing_after(
                                    spec_prop_transition(prefix, "top"@),
                                    tseq.subrange(0, t_i as int),
                                    "top"@,
                                ),
                                self.top.base.default,
                            ),
                            spec_template_matches(
                                self.width.spec_rule_transition(rule_id as int),
                                spec_timing_after(
                                    spec_prop_transition(prefix, "width"@),
                                    tseq.subrange(0, t_i as int),
                                    "width"@,
                                ),
                                self.width.base.default,
                            ),
                            spec_template_matches(
                                self.height.spec_rule_transition(rule_id as int),
                                spec_timing_after(
                                    spec_prop_transition(prefix, "height"@),
                                    tseq.subrange(0, t_i as int),
                                    "height"@,
                                ),
                                self.height.base.default,
                            ),
                            spec_template_matches(
                                self.background_color.spec_rule_transition(rule_id as int),
                                spec_timing_after(
                                    spec_prop_transition(prefix, "background-color"@),
                                    tseq.subrange(0, t_i as int),
                                    "background-color"@,
                                ),
                                self.background_color.base.default,
                            ),
                            spec_template_matches(
                                self.font_color.spec_rule_transition(rule_id as int),
                                spec_timing_after(
                                    spec_prop_transition(prefix, "font-color"@),
                                    tseq.subrange(0, t_i as int),
                                    "font-color"@,
                                ),
                                self.font_color.base.default,
                            ),
                            self.display.spec_rule_value(rule_id as int) == spec_prop_display(
                                prefix,
                            ),
                            self.visibility.spec_rule_value(rule_id as int)
                                == spec_prop_visibility(prefix),
                            self.opacity.base.spec_rule_value(rule_id as int)
                                == spec_prop_opacity(prefix),
                            self.left.base.spec_rule_value(rule_id as int) == spec_prop_left(
                                prefix,
                            ),
                            self.top.base.spec_rule_value(rule_id as int) == spec_prop_top(prefix),
                            self.width.base.spec_rule_value(rule_id as int) == spec_prop_width(
                                prefix,
                            ),
                            self.height.base.spec_rule_value(rule_id as int) == spec_prop_height(
                                prefix,
                            ),
                            self.margin_left.spec_rule_value(rule_id as int)
                                == spec_prop_margin_left(prefix),
                            self.margin_right.spec_rule_value(rule_id as int)
                                == spec_prop_margin_right(prefix),
                            self.margin_top.spec_rule_value(rule_id as int)
                                == spec_prop_margin_top(prefix),
                            self.margin_bottom.spec_rule_value(rule_id as int)
                                == spec_prop_margin_bottom(prefix),
                            self.padding_left.spec_rule_value(rule_id as int)
                                == spec_prop_padding_left(prefix),
                            self.padding_right.spec_rule_value(rule_id as int)
                                == spec_prop_padding_right(prefix),
                            self.padding_top.spec_rule_value(rule_id as int)
                                == spec_prop_padding_top(prefix),
                            self.padding_bottom.spec_rule_value(rule_id as int)
                                == spec_prop_padding_bottom(prefix),
                            self.background_color.base.spec_rule_value(rule_id as int)
                                == spec_prop_background_color(prefix),
                            self.font_color.base.spec_rule_value(rule_id as int)
                                == spec_prop_font_color(prefix),
                            forall|r: int|
                                r != rule_id ==> Style::spec_rule_layers_eq_at(*old(self), *self, r),
                            Style::spec_same_except_rule_layers(*old(self), *self),
                        decreases tseq.len() - t_i,
                    {
                        let ghost tsnap = *self;
                        let t = &ts[t_i];
                        let dur = t.duration_ms;
                        let del = t.delay_ms;
                        if t.property.eq(lit_opacity) {
                            let d = self.opacity.base.default;
                            let anim = AnimationState::new().with_duration(dur).with_delay(
                                del,
                            ).with_keyframe((0u16, d)).with_keyframe((1000u16, d));
                            proof {
                                assert(anim.keyframes@ =~= seq![(0u16, d), (1000u16, d)]);
                            }
                            self.opacity.insert_transition(rule_id, anim);
                        } else if t.property.eq(lit_left) {
                            let d = self.left.base.default;
                            let anim = AnimationState::new().with_duration(dur).with_delay(
                                del,
                            ).with_keyframe((0u16, d)).with_keyframe((1000u16, d));
                            proof {
                                assert(anim.keyframes@ =~= seq![(0u16, d), (1000u16, d)]);
                            }
                            self.left.insert_transition(rule_id, anim);
                        } else if t.property.eq(lit_top) {
                            let d = self.top.base.default;
                            let anim = AnimationState::new().with_duration(dur).with_delay(
                                del,
                            ).with_keyframe((0u16, d)).with_keyframe((1000u16, d));
                            proof {
                                assert(anim.keyframes@ =~= seq![(0u16, d), (1000u16, d)]);
                            }
                            self.top.insert_transition(rule_id, anim);
                        } else if t.property.eq(lit_width) {
                            let d = self.width.base.default;
                            let anim = AnimationState::new().with_duration(dur).with_delay(
                                del,
                            ).with_keyframe((0u16, d)).with_keyframe((1000u16, d));
                            proof {
                                assert(anim.keyframes@ =~= seq![(0u16, d), (1000u16, d)]);
                            }
                            self.width.insert_transition(rule_id, anim);
                        } else if t.property.eq(lit_height) {
                            let d = self.height.base.default;
                            let anim = AnimationState::new().with_duration(dur).with_delay(
                                del,
                            ).with_keyframe((0u16, d)).with_keyframe((1000u16, d));
                            proof {
                                assert(anim.keyframes@ =~= seq![(0u16, d), (1000u16, d)]);
                            }
                            self.height.insert_transition(rule_id, anim);
                        } else if t.property.eq(lit_background) {
                            let d = self.background_color.base.default;
                            let anim = AnimationState::new().with_duration(dur).with_delay(
                                del,
                            ).with_keyframe((0u16, d)).with_keyframe((1000u16, d));
                            proof {
                                assert(anim.keyframes@ =~= seq![(0u16, d), (1000u16, d)]);
                            }
                            self.background_color.insert_transition(rule_id, anim);
                        } else if t.property.eq(lit_font) {
                            let d = self.font_color.base.default;
                            let anim = AnimationState::new().with_duration(dur).with_delay(
                                del,
                            ).with_keyframe((0u16, d)).with_keyframe((1000u16, d));
                            proof {
                                assert(anim.keyframes@ =~= seq![(0u16, d), (1000u16, d)]);
                            }
                            self.font_color.insert_transition(rule_id, anim);
                        }
                        t_i = t_i + 1;
                        proof {
                            reveal_strlit("opacity");
                            reveal_strlit("left");
                            reveal_strlit("top");
                            reveal_strlit("width");
                            reveal_strlit("height");
                            reveal_strlit("background-color");
                            reveal_strlit("font-color");
                            assert("opacity"@.len() == 7);
                            assert("left"@.len() == 4);
                            assert("top"@.len() == 3);
                            assert("width"@.len() == 5);
                            assert("height"@.len() == 6);
                            assert("background-color"@.len() == 16);
                            assert("font-color"@.len() == 10);
                            let cur = tseq.subrange(0, t_i as int);
                            let pre_t = tseq.subrange(0, t_i - 1);
                            assert(cur.drop_last() =~= pre_t);
                            assert(cur.last() == tseq[t_i - 1]);
                            assert forall|r: int| r != rule_id implies Style::spec_rule_layers_eq_at(
                                *old(self),
                                *self,
                                r,
                            ) by {
                                assert(Style::spec_rule_layers_eq_at(*old(self), tsnap, r));
                            }
                        }
                    }
                    proof {
                        assert(tseq.subrange(0, tseq.len() as int) =~= tseq);
                    }
                },
            }
            j = j + 1;
            proof {
                let cur = props.subrange(0, j as int);
                let pre_p = props.subrange(0, j - 1);
                assert(cur.drop_last() =~= pre_p);
                assert(cur.last() == props[j - 1]);
                assert forall|r: int| r != rule_id implies Style::spec_rule_layers_eq_at(
                    *old(self),
                    *self,
                    r,
                ) by {
                    assert(Style::spec_rule_layers_eq_at(*old(self), snap, r));
                }
            }
        }
        proof {
            assert(props.subrange(0, props.len() as int) =~= props);
        }
    }


    /// Load a parsed stylesheet: replace the rule table wholesale with
    /// the given rules followed by the pending programmatic rules, order
    /// them for the cascade, assign dense 0-based rule ids, and push
    /// every property assignment and transition declaration into its
    /// typed storage.
    ///
    /// Profiles, inline overrides, named animations and in-flight
    /// transitions survive the load; links into the replaced table are
    /// dropped until the next restyle pass.
    pub fn load_theme(&mut self, rules: Vec<StyleRule>)
        ensures
            final(self).table_wf(),
            final(self).style_rules@.len() == 0,
            Style::spec_theme_reset(*old(self), *final(self)),
            ({
                let input = rules@ + old(self).style_rules@;
                &&& final(self).rule_selectors@.len() == input.len()
                &&& final(self).rule_decls@.len() == input.len()
                &&& forall|i: int|
                    0 <= i < input.len() ==> (#[trigger] final(self).rule_decls@[i]) < input.len()
                        && final(self).rule_selectors@[i] == input[final(self).rule_decls@[i] as int].selectors
                        && final(self).spec_rule_ingested(input, i)
                &&& forall|i: int, j: int|
                    0 <= i < j < input.len() ==> (#[trigger] final(self).rule_decls@[i]) != (
                    #[trigger] final(self).rule_decls@[j])
                &&& forall|d: int| 0 <= d < input.len() ==> final(self).spec_decl_used(d)
            }),
    {
        let ghost input = rules@ + old(self).style_rules@;
        let mut combined = rules;
        while self.style_rules.len() > 0
            invariant
                combined@ + self.style_rules@ == input,
                *self == (Style { style_rules: self.style_rules, ..*old(self) }),
            decreases self.style_rules@.len(),
        {
            let r = self.style_rules.remove(0);
            combined.push(r);
            proof {
                assert(combined@ + self.style_rules@ =~= input);
            }
        }
        proof {
            assert(combined@ =~= combined@ + self.style_rules@);
        }
        let entries = build_table(combined);
        let ghost es = entries@;
        self.rule_selectors = Vec::new();
        self.rule_specificities = Vec::new();
        self.rule_decls = Vec::new();
        self.display.clear_rules();
        self.visibility.clear_rules();
        self.opacity.clear_rules();
        self.left.clear_rules();
        self.top.clear_rules();
        self.width.clear_rules();
        self.height.clear_rules();
        self.margin_left.clear_rules();
        self.margin_right.clear_rules();
        self.margin_top.clear_rules();
        self.margin_bottom.clear_rules();
        self.padding_left.clear_rules();
        self.padding_right.clear_rules();
        self.padding_top.clear_rules();
        self.padding_bottom.clear_rules();
        self.background_color.clear_rules();
        self.font_color.clear_rules();
        let lit_opacity = "opacity".to_owned();
        let lit_left = "left".to_owned();
        let lit_top = "top".to_owned();
        let lit_width = "width".to_owned();
        let lit_height = "height".to_owned();
        let lit_background = "background-color".to_owned();
        let lit_font = "font-color".to_owned();
        let mut entries = entries;
        let entry_count = entries.len();
        proof {
            assert(entry_count == es.len());
            assert(es.len() <= usize::MAX);
        }
        while entries.len() > 0
            invariant
                es.len() <= usize::MAX,
                self.rule_selectors@.len() + entries@.len() == es.len(),
                entries@ == es.subrange(self.rule_selectors@.len() as int, es.len() as int),
                self.rule_specificities@.len() == self.rule_selectors@.len(),
                self.rule_decls@.len() == self.rule_selectors@.len(),
                forall|r: int|
                    0 <= r < self.rule_selectors@.len() ==> {
                        &&& (#[trigger] self.rule_selectors@[r]) == es[r].rule.selectors
                        &&& self.rule_specificities@[r] == es[r].specificity
                        &&& self.rule_decls@[r] == es[r].decl
                        &&& self.spec_props_ingested_at(es[r].rule.properties@, r)
                    },
                forall|r: int| r >= self.rule_selectors@.len() ==> self.spec_rule_clear(r),
                Style::spec_theme_reset(*old(self), *self),
                self.style_rules@.len() == 0,
                lit_opacity@ == "opacity"@,
                lit_left@ == "left"@,
                lit_top@ == "top"@,
                lit_width@ == "width"@,
                lit_height@ == "height"@,
                lit_background@ == "background-color"@,
                lit_font@ == "font-color"@,
            decreases entries@.len(),
        {
            let ghost snap = *self;
            let ghost done = self.rule_selectors@.len() as int;
            let rule_id = self.rule_selectors.len();
            let entry = entries.remove(0);
            proof {
                assert(es.subrange(done, es.len() as int)[0] == es[done]);
                assert(entries@ =~= es.subrange(done + 1, es.len() as int));
            }
            let TableEntry { rule, specificity, decl } = entry;
            let StyleRule { selectors, properties } = rule;
            self.ingest_properties(
                rule_id,
                &properties,
                &lit_opacity,
                &lit_left,
                &lit_top,
                &lit_width,
                &lit_height,
                &lit_background,
                &lit_font,
            );
            let ghost mid = *self;
            self.rule_specificities.push(specificity);
            self.rule_decls.push(decl);
            self.rule_selectors.push(selectors);
            proof {
                assert(entries@ =~= es.subrange(
                    self.rule_selectors@.len() as int,
                    es.len() as int,
                ));
                assert forall|r: int| 0 <= r < self.rule_selectors@.len() implies {
                    &&& (#[trigger] self.rule_selectors@[r]) == es[r].rule.selectors
                    &&& self.rule_specificities@[r] == es[r].specificity
                    &&& self.rule_decls@[r] == es[r].decl
                    &&& self.spec_props_ingested_at(es[r].rule.properties@, r)
                } by {
                    if r < done {
                        let tsel = snap.rule_selectors@[r];
                        assert(snap.spec_props_ingested_at(es[r].rule.properties@, r));
                        assert(Style::spec_rule_layers_eq_at(snap, mid, r));
                    } else {
                        assert(mid.spec_props_ingested_at(es[done].rule.properties@, done));
                    }
                }
                assert forall|r: int| r >= self.rule_selectors@.len() implies self.spec_rule_clear(
                    r,
                ) by {
                    assert(snap.spec_rule_clear(r));
                    assert(Style::spec_rule_layers_eq_at(snap, mid, r));
                }
            }
        }
        proof {
            let post = *self;
            assert(es.subrange(es.len() as int, es.len() as int) =~= Seq::<TableEntry>::empty());
            assert forall|i: int|
                0 <= i < post.rule_selectors@.len() implies #[trigger] post.rule_specificities@[i]
                == spec_chain_specificity(post.rule_selectors@[i]@) by {
                let tsel = post.rule_selectors@[i];
                assert(es[i].decl < input.len() && es[i].rule == input[es[i].decl as int]);
            }
            assert forall|i: int, j: int| 0 <= i < j < post.rule_selectors@.len() implies
                spec_outranks(
                #[trigger] post.rule_specificities@[i],
                #[trigger] post.rule_specificities@[j],
            ) || (post.rule_specificities@[i] == post.rule_specificities@[j]
                && post.rule_decls@[i] > post.rule_decls@[j]) by {
                let tsi = post.rule_selectors@[i];
                let tsj = post.rule_selectors@[j];
                assert(spec_key_greater(es[i], es[j]));
            }
            assert forall|i: int| 0 <= i < input.len() implies (#[trigger] post.rule_decls@[i])
                < input.len() && post.rule_selectors@[i] == input[post.rule_decls@[i] as int].selectors
                && post.spec_rule_ingested(input, i) by {
                let tsel = post.rule_selectors@[i];
                assert(es[i].decl < input.len() && es[i].rule == input[es[i].decl as int]);
                assert(post.spec_props_ingested_at(es[i].rule.properties@, i));
            }
            assert forall|i: int, j: int| 0 <= i < j < input.len() implies (
            #[trigger] post.rule_decls@[i]) != (#[trigger] post.rule_decls@[j]) by {
                let tsi = post.rule_selectors@[i];
                let tsj = post.rule_selectors@[j];
                assert(es[i].decl != es[j].decl);
            }
            assert forall|d: int| 0 <= d < input.len() implies post.spec_decl_used(d) by {
                assert(spec_decl_present(es, d));
                let wit = choose|wit: int| 0 <= wit < es.len() && (#[trigger] es[wit].decl) == d;
                let tsw = post.rule_selectors@[wit];
                assert(post.rule_decls@[wit] == d);
            }
        }
    }


    /// The rule table and every rule layer agree between two facades.
    pub open spec fn spec_table_eq(pre: Style, post: Style) -> bool {
        &&& post.style_rules == pre.style_rules
        &&& post.rule_selectors == pre.rule_selectors
        &&& post.rule_specificities == pre.rule_specificities
        &&& post.rule_decls == pre.rule_decls
        &&& post.display.rule_values == pre.display.rule_values
        &&& post.display.default == pre.display.default
        &&& post.visibility.rule_values == pre.visibility.rule_values
        &&& post.visibility.default == pre.visibility.default
        &&& post.margin_left.rule_values == pre.margin_left.rule_values
        &&& post.margin_left.default == pre.margin_left.default
        &&& post.margin_right.rule_values == pre.margin_right.rule_values
        &&& post.margin_right.default == pre.margin_right.default
        &&& post.margin_top.rule_values == pre.margin_top.rule_values
        &&& post.margin_top.default == pre.margin_top.default
        &&& post.margin_bottom.rule_values == pre.margin_bottom.rule_values
        &&& post.margin_bottom.default == pre.margin_bottom.default
        &&& post.padding_left.rule_values == pre.padding_left.rule_values
        &&& post.padding_left.default == pre.padding_left.default
        &&& post.padding_right.rule_values == pre.padding_right.rule_values
        &&& post.padding_right.default == pre.padding_right.default
        &&& post.padding_top.rule_values == pre.padding_top.rule_values
        &&& post.padding_top.default == pre.padding_top.default
        &&& post.padding_bottom.rule_values == pre.padding_bottom.rule_values
        &&& post.padding_bottom.default == pre.padding_bottom.default
        &&& post.opacity.base.rule_values == pre.opacity.base.rule_values
        &&& post.opacity.base.default == pre.opacity.base.default
        &&& post.opacity.rule_transitions == pre.opacity.rule_transitions
        &&& post.opacity.animations == pre.opacity.animations
        &&& post.left.base.rule_values == pre.left.base.rule_values
        &&& post.left.base.default == pre.left.base.default
        &&& post.left.rule_transitions == pre.left.rule_transitions
        &&& post.left.animations == pre.left.animations
        &&& post.top.base.rule_values == pre.top.base.rule_values
        &&& post.top.base.default == pre.top.base.default
        &&& post.top.rule_transitions == pre.top.rule_transitions
        &&& post.top.animations == pre.top.animations
        &&& post.width.base.rule_values == pre.width.base.rule_values
        &&& post.width.base.default == pre.width.base.default
        &&& post.width.rule_transitions == pre.width.rule_transitions
        &&& post.width.animations == pre.width.animations
        &&& post.height.base.rule_values == pre.height.base.rule_values
        &&& post.height.base.default == pre.height.base.default
        &&& post.height.rule_transitions == pre.height.rule_transitions
        &&& post.height.animations == pre.height.animations
        &&& post.background_color.base.rule_values == pre.background_color.base.rule_values
        &&& post.background_color.base.default == pre.background_color.base.default
        &&& post.background_color.rule_transitions == pre.background_color.rule_transitions
        &&& post.background_color.animations == pre.background_color.animations
        &&& post.font_color.base.rule_values == pre.font_color.base.rule_values
        &&& post.font_color.base.default == pre.font_color.base.default
        &&& post.font_color.rule_transitions == pre.font_color.rule_transitions
        &&& post.font_color.animations == pre.font_color.animations
    }

    /// Every piece of per-entity state for `e2` agrees between two
    /// facades: its profile, its overrides, its links and its in-flight
    /// transitions.
    pub open spec fn spec_entity_state_eq(pre: Style, post: Style, e2: Entity) -> bool {
        &&& post.ids.spec_get(e2) == pre.ids.spec_get(e2)
        &&& post.elements.spec_get(e2) == pre.elements.spec_get(e2)
        &&& post.classes.spec_classes(e2) == pre.classes.spec_classes(e2)
        &&& post.pseudo_classes.spec_get(e2) == pre.pseudo_classes.spec_get(e2)
        &&& post.z_order.spec_get(e2) == pre.z_order.spec_get(e2)
        &&& post.display.inline.spec_get(e2) == pre.display.inline.spec_get(e2)
        &&& post.display.links.spec_get(e2) == pre.display.links.spec_get(e2)
        &&& post.visibility.inline.spec_get(e2) == pre.visibility.inline.spec_get(e2)
        &&& post.visibility.links.spec_get(e2) == pre.visibility.links.spec_get(e2)
        &&& post.margin_left.inline.spec_get(e2) == pre.margin_left.inline.spec_get(e2)
        &&& post.margin_left.links.spec_get(e2) == pre.margin_left.links.spec_get(e2)
        &&& post.margin_right.inline.spec_get(e2) == pre.margin_right.inline.spec_get(e2)
        &&& post.margin_right.links.spec_get(e2) == pre.margin_right.links.spec_get(e2)
        &&& post.margin_top.inline.spec_get(e2) == pre.margin_top.inline.spec_get(e2)
        &&& post.margin_top.links.spec_get(e2) == pre.margin_top.links.spec_get(e2)
        &&& post.margin_bottom.inline.spec_get(e2) == pre.margin_bottom.inline.spec_get(e2)
        &&& post.margin_bottom.links.spec_get(e2) == pre.margin_bottom.links.spec_get(e2)
        &&& post.padding_left.inline.spec_get(e2) == pre.padding_left.inline.spec_get(e2)
        &&& post.padding_left.links.spec_get(e2) == pre.padding_left.links.spec_get(e2)
        &&& post.padding_right.inline.spec_get(e2) == pre.padding_right.inline.spec_get(e2)
        &&& post.padding_right.links.spec_get(e2) == pre.padding_right.links.spec_get(e2)
        &&& post.padding_top.inline.spec_get(e2) == pre.padding_top.inline.spec_get(e2)
        &&& post.padding_top.links.spec_get(e2) == pre.padding_top.links.spec_get(e2)
        &&& post.padding_bottom.inline.spec_get(e2) == pre.padding_bottom.inline.spec_get(e2)
        &&& post.padding_bottom.links.spec_get(e2) == pre.padding_bottom.links.spec_get(e2)
        &&& post.opacity.base.inline.spec_get(e2) == pre.opacity.base.inline.spec_get(e2)
        &&& post.opacity.base.links.spec_get(e2) == pre.opacity.base.links.spec_get(e2)
        &&& post.opacity.active.spec_get(e2) == pre.opacity.active.spec_get(e2)
        &&& post.left.base.inline.spec_get(e2) == pre.left.base.inline.spec_get(e2)
        &&& post.left.base.links.spec_get(e2) == pre.left.base.links.spec_get(e2)
        &&& post.left.active.spec_get(e2) == pre.left.active.spec_get(e2)
        &&& post.top.base.inline.spec_get(e2) == pre.top.base.inline.spec_get(e2)
        &&& post.top.base.links.spec_get(e2) == pre.top.base.links.spec_get(e2)
        &&& post.top.active.spec_get(e2) == pre.top.active.spec_get(e2)
        &&& post.width.base.inline.spec_get(e2) == pre.width.base.inline.spec_get(e2)
        &&& post.width.base.links.spec_get(e2) == pre.width.base.links.spec_get(e2)
        &&& post.width.active.spec_get(e2) == pre.width.active.spec_get(e2)
        &&& post.height.base.inline.spec_get(e2) == pre.height.base.inline.spec_get(e2)
        &&& post.height.base.links.spec_get(e2) == pre.height.base.links.spec_get(e2)
        &&& post.height.active.spec_get(e2) == pre.height.active.spec_get(e2)
        &&& post.background_color.base.inline.spec_get(e2) == pre.background_color.base.inline.spec_get(e2)
        &&& post.background_color.base.links.spec_get(e2) == pre.background_color.base.links.spec_get(e2)
        &&& post.background_color.active.spec_get(e2) == pre.background_color.active.spec_get(e2)
        &&& post.font_color.base.inline.spec_get(e2) == pre.font_color.base.inline.spec_get(e2)
        &&& post.font_color.base.links.spec_get(e2) == pre.font_color.base.links.spec_get(e2)
        &&& post.font_color.active.spec_get(e2) == pre.font_color.active.spec_get(e2)
    }

    /// Register a newly built entity: it starts with an empty
    /// pseudo-class flag set. Everything else is untouched.
    pub fn add(&mut self, entity: Entity)
        ensures
            !entity.spec_is_null() ==> final(self).pseudo_classes.spec_get(entity) == Some(
                PseudoClasses(0),
            ),
            entity.spec_is_null() ==> *final(self) == *old(self),
            forall|e2: Entity|
                e2.spec_index() != entity.spec_index() ==> final(self).pseudo_classes.spec_get(e2)
                    == old(self).pseudo_classes.spec_get(e2),
            *final(self) == (Style { pseudo_classes: final(self).pseudo_classes, ..*old(self) }),
    {
        self.pseudo_classes.insert(entity, PseudoClasses::new());
    }

    /// Drop every piece of per-entity state for `entity`: its profile,
    /// its overrides, its links and its in-flight transitions. Afterwards
    /// every property query for it returns the property's type default;
    /// removal is idempotent and a removed entity never faults.
    pub fn remove(&mut self, entity: Entity)
        ensures
            final(self).ids.spec_get(entity) is None,
            final(self).elements.spec_get(entity) is None,
            final(self).classes.spec_classes(entity) == Seq::<Seq<char>>::empty(),
            final(self).pseudo_classes.spec_get(entity) is None,
            final(self).z_order.spec_get(entity) is None,
            final(self).display.spec_absent(entity),
            final(self).display.spec_resolved(entity) == old(self).display.default,
            final(self).visibility.spec_absent(entity),
            final(self).visibility.spec_resolved(entity) == old(self).visibility.default,
            final(self).margin_left.spec_absent(entity),
            final(self).margin_left.spec_resolved(entity) == old(self).margin_left.default,
            final(self).margin_right.spec_absent(entity),
            final(self).margin_right.spec_resolved(entity) == old(self).margin_right.default,
            final(self).margin_top.spec_absent(entity),
            final(self).margin_top.spec_resolved(entity) == old(self).margin_top.default,
            final(self).margin_bottom.spec_absent(entity),
            final(self).margin_bottom.spec_resolved(entity) == old(self).margin_bottom.default,
            final(self).padding_left.spec_absent(entity),
            final(self).padding_left.spec_resolved(entity) == old(self).padding_left.default,
            final(self).padding_right.spec_absent(entity),
            final(self).padding_right.spec_resolved(entity) == old(self).padding_right.default,
            final(self).padding_top.spec_absent(entity),
            final(self).padding_top.spec_resolved(entity) == old(self).padding_top.default,
            final(self).padding_bottom.spec_absent(entity),
            final(self).padding_bottom.spec_resolved(entity) == old(self).padding_bottom.default,
            final(self).opacity.spec_absent(entity),
            final(self).opacity.spec_current(entity) == old(self).opacity.base.default,
            final(self).left.spec_absent(entity),
            final(self).left.spec_current(entity) == old(self).left.base.default,
            final(self).top.spec_absent(entity),
            final(self).top.spec_current(entity) == old(self).top.base.default,
            final(self).width.spec_absent(entity),
            final(self).width.spec_current(entity) == old(self).width.base.default,
            final(self).height.spec_absent(entity),
            final(self).height.spec_current(entity) == old(self).height.base.default,
            final(self).background_color.spec_absent(entity),
            final(self).background_color.spec_current(entity) == old(
                self,
            ).background_color.base.default,
            final(self).font_color.spec_absent(entity),
            final(self).font_color.spec_current(entity) == old(self).font_color.base.default,
            forall|e2: Entity|
                e2.spec_index() != entity.spec_index() ==> Style::spec_entity_state_eq(
                    *old(self),
                    *final(self),
                    e2,
                ),
            Style::spec_table_eq(*old(self), *final(self)),
    {
        self.ids.remove(entity);
        self.elements.remove(entity);
        self.classes.remove_entity(entity);
        self.pseudo_classes.remove(entity);
        self.z_order.remove(entity);
        self.display.remove(entity);
        self.visibility.remove(entity);
        self.margin_left.remove(entity);
        self.margin_right.remove(entity);
        self.margin_top.remove(entity);
        self.margin_bottom.remove(entity);
        self.padding_left.remove(entity);
        self.padding_right.remove(entity);
        self.padding_top.remove(entity);
        self.padding_bottom.remove(entity);
        self.opacity.remove(entity);
        self.left.remove(entity);
        self.top.remove(entity);
        self.width.remove(entity);
        self.height.remove(entity);
        self.background_color.remove(entity);
        self.font_color.remove(entity);
    }

    /// Set `entity`'s id name, interned as a hash.
    pub fn insert_id(&mut self, entity: Entity, id: &str)
        ensures
            !entity.spec_is_null() ==> final(self).ids.spec_get(entity) == Some(
                spec_hash_name(id),
            ),
            entity.spec_is_null() ==> final(self).ids == old(self).ids,
            forall|e2: Entity|
                e2.spec_index() != entity.spec_index() ==> final(self).ids.spec_get(e2) == old(
                    self,
                ).ids.spec_get(e2),
            *final(self) == (Style { ids: final(self).ids, ..*old(self) }),
    {
        let h = hash_name(id);
        self.ids.insert(entity, h);
    }

    /// Set `entity`'s element name, interned as a hash.
    pub fn insert_element(&mut self, entity: Entity, element: &str)
        ensures
            !entity.spec_is_null() ==> final(self).elements.spec_get(entity) == Some(
                spec_hash_name(element),
            ),
            entity.spec_is_null() ==> final(self).elements == old(self).elements,
            forall|e2: Entity|
                e2.spec_index() != entity.spec_index() ==> final(self).elements.spec_get(e2)
                    == old(self).elements.spec_get(e2),
            *final(self) == (Style { elements: final(self).elements, ..*old(self) }),
    {
        let h = hash_name(element);
        self.elements.insert(entity, h);
    }

    /// Give `entity` a class name; one it already carries is not
    /// duplicated.
    pub fn insert_class(&mut self, entity: Entity, class: &str)
        ensures
            entity.spec_is_null() ==> final(self).classes == old(self).classes,
            !entity.spec_is_null() ==> final(self).classes.spec_classes(entity) == if old(
                self,
            ).classes.spec_classes(entity).contains(class@) {
                old(self).classes.spec_classes(entity)
            } else {
                old(self).classes.spec_classes(entity).push(class@)
            },
            forall|e2: Entity|
                e2.spec_index() != entity.spec_index() ==> final(self).classes.spec_classes(e2)
                    == old(self).classes.spec_classes(e2),
            *final(self) == (Style { classes: final(self).classes, ..*old(self) }),
    {
        self.classes.insert_class(entity, class);
    }

    /// Drop a class name from `entity`, wherever it occurs.
    pub fn remove_class(&mut self, entity: Entity, class: &str)
        ensures
            final(self).classes.spec_classes(entity) == old(self).classes.spec_classes(
                entity,
            ).filter(|c: Seq<char>| c != class@),
            forall|e2: Entity|
                e2.spec_index() != entity.spec_index() ==> final(self).classes.spec_classes(e2)
                    == old(self).classes.spec_classes(e2),
            *final(self) == (Style { classes: final(self).classes, ..*old(self) }),
    {
        self.classes.remove_class(entity, class);
    }

    /// Replace `entity`'s pseudo-class flag set, as interaction code does
    /// when hover, focus and the like change.
    pub fn set_pseudo_classes(&mut self, entity: Entity, pseudo: PseudoClasses)
        ensures
            !entity.spec_is_null() ==> final(self).pseudo_classes.spec_get(entity) == Some(pseudo),
            entity.spec_is_null() ==> final(self).pseudo_classes == old(self).pseudo_classes,
            forall|e2: Entity|
                e2.spec_index() != entity.spec_index() ==> final(self).pseudo_classes.spec_get(e2)
                    == old(self).pseudo_classes.spec_get(e2),
            *final(self) == (Style { pseudo_classes: final(self).pseudo_classes, ..*old(self) }),
    {
        self.pseudo_classes.insert(entity, pseudo);
    }

    /// `entity`'s pseudo-class flag set, empty if it has none.
    pub fn get_pseudo_classes(&self, entity: Entity) -> (pc: PseudoClasses)
        ensures
            pc.0 == self.spec_pseudo(entity),
    {
        match self.pseudo_classes.get(entity) {
            Some(pc) => *pc,
            None => PseudoClasses(0),
        }
    }

    /// Run cascade resolution for one entity: match every rule of the
    /// table against its profile and lineage, and let each property
    /// storage re-link to its winner, starting, keeping or dropping
    /// transitions as the winning rules' `transition` declarations say.
    pub fn restyle(&mut self, h: &Hierarchy, entity: Entity, now_ms: u64)
        requires
            h.wf(),
            old(self).table_wf(),
        ensures
            final(self).table_wf(),
            Style::spec_table_eq(*old(self), *final(self)),
            final(self).ids == old(self).ids,
            final(self).elements == old(self).elements,
            final(self).classes == old(self).classes,
            final(self).pseudo_classes == old(self).pseudo_classes,
            final(self).z_order == old(self).z_order,
            ({
                let ms = old(self).spec_matched(*h, entity);
                &&& PropertyStorage::spec_linked(
                    old(self).display,
                    final(self).display,
                    entity,
                    ms,
                )
                &&& PropertyStorage::spec_linked(
                    old(self).visibility,
                    final(self).visibility,
                    entity,
                    ms,
                )
                &&& PropertyStorage::spec_linked(
                    old(self).margin_left,
                    final(self).margin_left,
                    entity,
                    ms,
                )
                &&& PropertyStorage::spec_linked(
                    old(self).margin_right,
                    final(self).margin_right,
                    entity,
                    ms,
                )
                &&& PropertyStorage::spec_linked(
                    old(self).margin_top,
                    final(self).margin_top,
                    entity,
                    ms,
                )
                &&& PropertyStorage::spec_linked(
                    old(self).margin_bottom,
                    final(self).margin_bottom,
                    entity,
                    ms,
                )
                &&& PropertyStorage::spec_linked(
                    old(self).padding_left,
                    final(self).padding_left,
                    entity,
                    ms,
                )
                &&& PropertyStorage::spec_linked(
                    old(self).padding_right,
                    final(self).padding_right,
                    entity,
                    ms,
                )
                &&& PropertyStorage::spec_linked(
                    old(self).padding_top,
                    final(self).padding_top,
                    entity,
                    ms,
                )
                &&& PropertyStorage::spec_linked(
                    old(self).padding_bottom,
                    final(self).padding_bottom,
                    entity,
                    ms,
                )
                &&& AnimatableStorage::spec_linked(
                    old(self).opacity,
                    final(self).opacity,
                    entity,
                    ms,
                    now_ms,
                )
                &&& AnimatableStorage::spec_linked(
                    old(self).left,
                    final(self).left,
                    entity,
                    ms,
                    now_ms,
                )
                &&& AnimatableStorage::spec_linked(
                    old(self).top,
                    final(self).top,
                    entity,
                    ms,
                    now_ms,
                )
                &&& AnimatableStorage::spec_linked(
                    old(self).width,
                    final(self).width,
                    entity,
                    ms,
                    now_ms,
                )
                &&& AnimatableStorage::spec_linked(
                    old(self).height,
                    final(self).height,
                    entity,
                    ms,
                    now_ms,
                )
                &&& AnimatableStorage::spec_linked(
                    old(self).background_color,
                    final(self).background_color,
                    entity,
                    ms,
                    now_ms,
                )
                &&& AnimatableStorage::spec_linked(
                    old(self).font_color,
                    final(self).font_color,
                    entity,
                    ms,
                    now_ms,
                )
            }),
    {
        let ms = self.matched_rules(h, entity);
        self.display.link(entity, &ms);
        self.visibility.link(entity, &ms);
        self.margin_left.link(entity, &ms);
        self.margin_right.link(entity, &ms);
        self.margin_top.link(entity, &ms);
        self.margin_bottom.link(entity, &ms);
        self.padding_left.link(entity, &ms);
        self.padding_right.link(entity, &ms);
        self.padding_top.link(entity, &ms);
        self.padding_bottom.link(entity, &ms);
        self.opacity.link(entity, &ms, now_ms);
        self.left.link(entity, &ms, now_ms);
        self.top.link(entity, &ms, now_ms);
        self.width.link(entity, &ms, now_ms);
        self.height.link(entity, &ms, now_ms);
        self.background_color.link(entity, &ms, now_ms);
        self.font_color.link(entity, &ms, now_ms);
    }

    /// Advance every in-flight transition of every animatable property to
    /// time `now_ms`; the clock must come from the embedding's frame
    /// driver and be monotonic across calls.
    pub fn tick(&mut self, now_ms: u64)
        ensures
            AnimatableStorage::spec_ticked(old(self).opacity, final(self).opacity, now_ms),
            AnimatableStorage::spec_ticked(old(self).left, final(self).left, now_ms),
            AnimatableStorage::spec_ticked(old(self).top, final(self).top, now_ms),
            AnimatableStorage::spec_ticked(old(self).width, final(self).width, now_ms),
            AnimatableStorage::spec_ticked(old(self).height, final(self).height, now_ms),
            AnimatableStorage::spec_ticked(
                old(self).background_color,
                final(self).background_color,
                now_ms,
            ),
            AnimatableStorage::spec_ticked(old(self).font_color, final(self).font_color, now_ms),
            *final(self) == (Style {
                opacity: final(self).opacity,
                left: final(self).left,
                top: final(self).top,
                width: final(self).width,
                height: final(self).height,
                background_color: final(self).background_color,
                font_color: final(self).font_color,
                ..*old(self)
            }),
    {
        self.opacity.tick(now_ms);
        self.left.tick(now_ms);
        self.top.tick(now_ms);
        self.width.tick(now_ms);
        self.height.tick(now_ms);
        self.background_color.tick(now_ms);
        self.font_color.tick(now_ms);
    }


    /// The resolved value of `display` for `entity`; total, falling back
    /// to the type default.
    pub fn get_display(&self, entity: Entity) -> (v: Display)
        ensures
            v == self.display.spec_resolved(entity),
    {
        self.display.get(entity)
    }

    /// Write an inline `display` override for `entity`: it wins over any
    /// rule value until explicitly cleared.
    pub fn set_display(&mut self, entity: Entity, value: Display)
        ensures
            !entity.spec_is_null() ==> final(self).display.spec_resolved(entity) == value,
            forall|e2: Entity|
                e2.spec_index() != entity.spec_index() ==> final(self).display.inline.spec_get(e2)
                    == old(self).display.inline.spec_get(e2),
            final(self).display.links == old(self).display.links,
            final(self).display.rule_values == old(self).display.rule_values,
            final(self).display.default == old(self).display.default,
            *final(self) == (Style { display: final(self).display, ..*old(self) }),
    {
        self.display.insert(entity, value);
    }

    /// The resolved value of `visibility` for `entity`; total, falling back
    /// to the type default.
    pub fn get_visibility(&self, entity: Entity) -> (v: Visibility)
        ensures
            v == self.visibility.spec_resolved(entity),
    {
        self.visibility.get(entity)
    }

    /// Write an inline `visibility` override for `entity`: it wins over any
    /// rule value until explicitly cleared.
    pub fn set_visibility(&mut self, entity: Entity, value: Visibility)
        ensures
            !entity.spec_is_null() ==> final(self).visibility.spec_resolved(entity) == value,
            forall|e2: Entity|
                e2.spec_index() != entity.spec_index() ==> final(self).visibility.inline.spec_get(e2)
                    == old(self).visibility.inline.spec_get(e2),
            final(self).visibility.links == old(self).visibility.links,
            final(self).visibility.rule_values == old(self).visibility.rule_values,
            final(self).visibility.default == old(self).visibility.default,
            *final(self) == (Style { visibility: final(self).visibility, ..*old(self) }),
    {
        self.visibility.insert(entity, value);
    }

    /// The resolved value of `margin_left` for `entity`; total, falling back
    /// to the type default.
    pub fn get_margin_left(&self, entity: Entity) -> (v: Length)
        ensures
            v == self.margin_left.spec_resolved(entity),
    {
        self.margin_left.get(entity)
    }

    /// Write an inline `margin_left` override for `entity`: it wins over any
    /// rule value until explicitly cleared.
    pub fn set_margin_left(&mut self, entity: Entity, value: Length)
        ensures
            !entity.spec_is_null() ==> final(self).margin_left.spec_resolved(entity) == value,
            forall|e2: Entity|
                e2.spec_index() != entity.spec_index() ==> final(self).margin_left.inline.spec_get(e2)
                    == old(self).margin_left.inline.spec_get(e2),
            final(self).margin_left.links == old(self).margin_left.links,
            final(self).margin_left.rule_values == old(self).margin_left.rule_values,
            final(self).margin_left.default == old(self).margin_left.default,
            *final(self) == (Style { margin_left: final(self).margin_left, ..*old(self) }),
    {
        self.margin_left.insert(entity, value);
    }

    /// The resolved value of `margin_right` for `entity`; total, falling back
    /// to the type default.
    pub fn get_margin_right(&self, entity: Entity) -> (v: Length)
        ensures
            v == self.margin_right.spec_resolved(entity),
    {
        self.margin_right.get(entity)
    }

    /// Write an inline `margin_right` override for `entity`: it wins over any
    /// rule value until explicitly cleared.
    pub fn set_margin_right(&mut self, entity: Entity, value: Length)
        ensures
            !entity.spec_is_null() ==> final(self).margin_right.spec_resolved(entity) == value,
            forall|e2: Entity|
                e2.spec_index() != entity.spec_index() ==> final(self).margin_right.inline.spec_get(e2)
                    == old(self).margin_right.inline.spec_get(e2),
            final(self).margin_right.links == old(self).margin_right.links,
            final(self).margin_right.rule_values == old(self).margin_right.rule_values,
            final(self).margin_right.default == old(self).margin_right.default,
            *final(self) == (Style { margin_right: final(self).margin_right, ..*old(self) }),
    {
        self.margin_right.insert(entity, value);
    }

    /// The resolved value of `margin_top` for `entity`; total, falling back
    /// to the type default.
    pub fn get_margin_top(&self, entity: Entity) -> (v: Length)
        ensures
            v == self.margin_top.spec_resolved(entity),
    {
        self.margin_top.get(entity)
    }

    /// Write an inline `margin_top` override for `entity`: it wins over any
    /// rule value until explicitly cleared.
    pub fn set_margin_top(&mut self, entity: Entity, value: Length)
        ensures
            !entity.spec_is_null() ==> final(self).margin_top.spec_resolved(entity) == value,
            forall|e2: Entity|
                e2.spec_index() != entity.spec_index() ==> final(self).margin_top.inline.spec_get(e2)
                    == old(self).margin_top.inline.spec_get(e2),
            final(self).margin_top.links == old(self).margin_top.links,
            final(self).margin_top.rule_values == old(self).margin_top.rule_values,
            final(self).margin_top.default == old(self).margin_top.default,
            *final(self) == (Style { margin_top: final(self).margin_top, ..*old(self) }),
    {
        self.margin_top.insert(entity, value);
    }

    /// The resolved value of `margin_bottom` for `entity`; total, falling back
    /// to the type default.
    pub fn get_margin_bottom(&self, entity: Entity) -> (v: Length)
        ensures
            v == self.margin_bottom.spec_resolved(entity),
    {
        self.margin_bottom.get(entity)
    }

    /// Write an inline `margin_bottom` override for `entity`: it wins over any
    /// rule value until explicitly cleared.
    pub fn set_margin_bottom(&mut self, entity: Entity, value: Length)
        ensures
            !entity.spec_is_null() ==> final(self).margin_bottom.spec_resolved(entity) == value,
            forall|e2: Entity|
                e2.spec_index() != entity.spec_index() ==> final(self).margin_bottom.inline.spec_get(e2)
                    == old(self).margin_bottom.inline.spec_get(e2),
            final(self).margin_bottom.links == old(self).margin_bottom.links,
            final(self).margin_bottom.rule_values == old(self).margin_bottom.rule_values,
            final(self).margin_bottom.default == old(self).margin_bottom.default,
            *final(self) == (Style { margin_bottom: final(self).margin_bottom, ..*old(self) }),
    {
        self.margin_bottom.insert(entity, value);
    }

    /// The resolved value of `padding_left` for `entity`; total, falling back
    /// to the type default.
    pub fn get_padding_left(&self, entity: Entity) -> (v: Length)
        ensures
            v == self.padding_left.spec_resolved(entity),
    {
        self.padding_left.get(entity)
    }

    /// Write an inline `padding_left` override for `entity`: it wins over any
    /// rule value until explicitly cleared.
    pub fn set_padding_left(&mut self, entity: Entity, value: Length)
        ensures
            !entity.spec_is_null() ==> final(self).padding_left.spec_resolved(entity) == value,
            forall|e2: Entity|
                e2.spec_index() != entity.spec_index() ==> final(self).padding_left.inline.spec_get(e2)
                    == old(self).padding_left.inline.spec_get(e2),
            final(self).padding_left.links == old(self).padding_left.links,
            final(self).padding_left.rule_values == old(self).padding_left.rule_values,
            final(self).padding_left.default == old(self).padding_left.default,
            *final(self) == (Style { padding_left: final(self).padding_left, ..*old(self) }),
    {
        self.padding_left.insert(entity, value);
    }

    /// The resolved value of `padding_right` for `entity`; total, falling back
    /// to the type default.
    pub fn get_padding_right(&self, entity: Entity) -> (v: Length)
        ensures
            v == self.padding_right.spec_resolved(entity),
    {
        self.padding_right.get(entity)
    }

    /// Write an inline `padding_right` override for `entity`: it wins over any
    /// rule value until explicitly cleared.
    pub fn set_padding_right(&mut self, entity: Entity, value: Length)
        ensures
            !entity.spec_is_null() ==> final(self).padding_right.spec_resolved(entity) == value,
            forall|e2: Entity|
                e2.spec_index() != entity.spec_index() ==> final(self).padding_right.inline.spec_get(e2)
                    == old(self).padding_right.inline.spec_get(e2),
            final(self).padding_right.links == old(self).padding_right.links,
            final(self).padding_right.rule_values == old(self).padding_right.rule_values,
            final(self).padding_right.default == old(self).padding_right.default,
            *final(self) == (Style { padding_right: final(self).padding_right, ..*old(self) }),
    {
        self.padding_right.insert(entity, value);
    }

    /// The resolved value of `padding_top` for `entity`; total, falling back
    /// to the type default.
    pub fn get_padding_top(&self, entity: Entity) -> (v: Length)
        ensures
            v == self.padding_top.spec_resolved(entity),
    {
        self.padding_top.get(entity)
    }

    /// Write an inline `padding_top` override for `entity`: it wins over any
    /// rule value until explicitly cleared.
    pub fn set_padding_top(&mut self, entity: Entity, value: Length)
        ensures
            !entity.spec_is_null() ==> final(self).padding_top.spec_resolved(entity) == value,
            forall|e2: Entity|
                e2.spec_index() != entity.spec_index() ==> final(self).padding_top.inline.spec_get(e2)
                    == old(self).padding_top.inline.spec_get(e2),
            final(self).padding_top.links == old(self).padding_top.links,
            final(self).padding_top.rule_values == old(self).padding_top.rule_values,
            final(self).padding_top.default == old(self).padding_top.default,
            *final(self) == (Style { padding_top: final(self).padding_top, ..*old(self) }),
    {
        self.padding_top.insert(entity, value);
    }

    /// The resolved value of `padding_bottom` for `entity`; total, falling back
    /// to the type default.
    pub fn get_padding_bottom(&self, entity: Entity) -> (v: Length)
        ensures
            v == self.padding_bottom.spec_resolved(entity),
    {
        self.padding_bottom.get(entity)
    }

    /// Write an inline `padding_bottom` override for `entity`: it wins over any
    /// rule value until explicitly cleared.
    pub fn set_padding_bottom(&mut self, entity: Entity, value: Length)
        ensures
            !entity.spec_is_null() ==> final(self).padding_bottom.spec_resolved(entity) == value,
            forall|e2: Entity|
                e2.spec_index() != entity.spec_index() ==> final(self).padding_bottom.inline.spec_get(e2)
                    == old(self).padding_bottom.inline.spec_get(e2),
            final(self).padding_bottom.links == old(self).padding_bottom.links,
            final(self).padding_bottom.rule_values == old(self).padding_bottom.rule_values,
            final(self).padding_bottom.default == old(self).padding_bottom.default,
            *final(self) == (Style { padding_bottom: final(self).padding_bottom, ..*old(self) }),
    {
        self.padding_bottom.insert(entity, value);
    }

    /// The displayed value of `opacity` for `entity`, mid-transition if
    /// one is playing; total, falling back to the type default.
    pub fn get_opacity(&self, entity: Entity) -> (v: Opacity)
        ensures
            v == self.opacity.spec_current(entity),
    {
        self.opacity.get(entity)
    }

    /// Write an inline `opacity` override for `entity`: it wins over any
    /// rule value until explicitly cleared.
    pub fn set_opacity(&mut self, entity: Entity, value: Opacity)
        ensures
            !entity.spec_is_null() ==> final(self).opacity.base.spec_resolved(entity) == value,
            forall|e2: Entity|
                e2.spec_index() != entity.spec_index() ==> final(self).opacity.base.inline.spec_get(e2) == old(self).opacity.base.inline.spec_get(e2),
            final(self).opacity.base.links == old(self).opacity.base.links,
            final(self).opacity.base.rule_values == old(self).opacity.base.rule_values,
            final(self).opacity.base.default == old(self).opacity.base.default,
            final(self).opacity.active == old(self).opacity.active,
            final(self).opacity.animations == old(self).opacity.animations,
            final(self).opacity.rule_transitions == old(self).opacity.rule_transitions,
            *final(self) == (Style { opacity: final(self).opacity, ..*old(self) }),
    {
        self.opacity.insert(entity, value);
    }

    /// The displayed value of `left` for `entity`, mid-transition if
    /// one is playing; total, falling back to the type default.
    pub fn get_left(&self, entity: Entity) -> (v: Length)
        ensures
            v == self.left.spec_current(entity),
    {
        self.left.get(entity)
    }

    /// Write an inline `left` override for `entity`: it wins over any
    /// rule value until explicitly cleared.
    pub fn set_left(&mut self, entity: Entity, value: Length)
        ensures
            !entity.spec_is_null() ==> final(self).left.base.spec_resolved(entity) == value,
            forall|e2: Entity|
                e2.spec_index() != entity.spec_index() ==> final(self).left.base.inline.spec_get(e2) == old(self).left.base.inline.spec_get(e2),
            final(self).left.base.links == old(self).left.base.links,
            final(self).left.base.rule_values == old(self).left.base.rule_values,
            final(self).left.base.default == old(self).left.base.default,
            final(self).left.active == old(self).left.active,
            final(self).left.animations == old(self).left.animations,
            final(self).left.rule_transitions == old(self).left.rule_transitions,
            *final(self) == (Style { left: final(self).left, ..*old(self) }),
    {
        self.left.insert(entity, value);
    }

    /// The displayed value of `top` for `entity`, mid-transition if
    /// one is playing; total, falling back to the type default.
    pub fn get_top(&self, entity: Entity) -> (v: Length)
        ensures
            v == self.top.spec_current(entity),
    {
        self.top.get(entity)
    }

    /// Write an inline `top` override for `entity`: it wins over any
    /// rule value until explicitly cleared.
    pub fn set_top(&mut self, entity: Entity, value: Length)
        ensures
            !entity.spec_is_null() ==> final(self).top.base.spec_resolved(entity) == value,
            forall|e2: Entity|
                e2.spec_index() != entity.spec_index() ==> final(self).top.base.inline.spec_get(e2) == old(self).top.base.inline.spec_get(e2),
            final(self).top.base.links == old(self).top.base.links,
            final(self).top.base.rule_values == old(self).top.base.rule_values,
            final(self).top.base.default == old(self).top.base.default,
            final(self).top.active == old(self).top.active,
            final(self).top.animations == old(self).top.animations,
            final(self).top.rule_transitions == old(self).top.rule_transitions,
            *final(self) == (Style { top: final(self).top, ..*old(self) }),
    {
        self.top.insert(entity, value);
    }

    /// The displayed value of `width` for `entity`, mid-transition if
    /// one is playing; total, falling back to the type default.
    pub fn get_width(&self, entity: Entity) -> (v: Length)
        ensures
            v == self.width.spec_current(entity),
    {
        self.width.get(entity)
    }

    /// Write an inline `width` override for `entity`: it wins over any
    /// rule value until explicitly cleared.
    pub fn set_width(&mut self, entity: Entity, value: Length)
        ensures
            !entity.spec_is_null() ==> final(self).width.base.spec_resolved(entity) == value,
            forall|e2: Entity|
                e2.spec_index() != entity.spec_index() ==> final(self).width.base.inline.spec_get(e2) == old(self).width.base.inline.spec_get(e2),
            final(self).width.base.links == old(self).width.base.links,
            final(self).width.base.rule_values == old(self).width.base.rule_values,
            final(self).width.base.default == old(self).width.base.default,
            final(self).width.active == old(self).width.active,
            final(self).width.animations == old(self).width.animations,
            final(self).width.rule_transitions == old(self).width.rule_transitions,
            *final(self) == (Style { width: final(self).width, ..*old(self) }),
    {
        self.width.insert(entity, value);
    }

    /// The displayed value of `height` for `entity`, mid-transition if
    /// one is playing; total, falling back to the type default.
    pub fn get_height(&self, entity: Entity) -> (v: Length)
        ensures
            v == self.height.spec_current(entity),
    {
        self.height.get(entity)
    }

    /// Write an inline `height` override for `entity`: it wins over any
    /// rule value until explicitly cleared.
    pub fn set_height(&mut self, entity: Entity, value: Length)
        ensures
            !entity.spec_is_null() ==> final(self).height.base.spec_resolved(entity) == value,
            forall|e2: Entity|
                e2.spec_index() != entity.spec_index() ==> final(self).height.base.inline.spec_get(e2) == old(self).height.base.inline.spec_get(e2),
            final(self).height.base.links == old(self).height.base.links,
            final(self).height.base.rule_values == old(self).height.base.rule_values,
            final(self).height.base.default == old(self).height.base.default,
            final(self).height.active == old(self).height.active,
            final(self).height.animations == old(self).height.animations,
            final(self).height.rule_transitions == old(self).height.rule_transitions,
            *final(self) == (Style { height: final(self).height, ..*old(self) }),
    {
        self.height.insert(entity, value);
    }

    /// The displayed value of `background_color` for `entity`, mid-transition if
    /// one is playing; total, falling back to the type default.
    pub fn get_background_color(&self, entity: Entity) -> (v: Color)
        ensures
            v == self.background_color.spec_current(entity),
    {
        self.background_color.get(entity)
    }

    /// Write an inline `background_color` override for `entity`: it wins over any
    /// rule value until explicitly cleared.
    pub fn set_background_color(&mut self, entity: Entity, value: Color)
        ensures
            !entity.spec_is_null() ==> final(self).background_color.base.spec_resolved(entity) == value,
            forall|e2: Entity|
                e2.spec_index() != entity.spec_index() ==> final(self).background_color.base.inline.spec_get(e2) == old(self).background_color.base.inline.spec_get(e2),
            final(self).background_color.base.links == old(self).background_color.base.links,
            final(self).background_color.base.rule_values == old(self).background_color.base.rule_values,
            final(self).background_color.base.default == old(self).background_color.base.default,
            final(self).background_color.active == old(self).background_color.active,
            final(self).background_color.animations == old(self).background_color.animations,
            final(self).background_color.rule_transitions == old(self).background_color.rule_transitions,
            *final(self) == (Style { background_color: final(self).background_color, ..*old(self) }),
    {
        self.background_color.insert(entity, value);
    }

    /// The displayed value of `font_color` for `entity`, mid-transition if
    /// one is playing; total, falling back to the type default.
    pub fn get_font_color(&self, entity: Entity) -> (v: Color)
        ensures
            v == self.font_color.spec_current(entity),
    {
        self.font_color.get(entity)
    }

    /// Write an inline `font_color` override for `entity`: it wins over any
    /// rule value until explicitly cleared.
    pub fn set_font_color(&mut self, entity: Entity, value: Color)
        ensures
            !entity.spec_is_null() ==> final(self).font_color.base.spec_resolved(entity) == value,
            forall|e2: Entity|
                e2.spec_index() != entity.spec_index() ==> final(self).font_color.base.inline.spec_get(e2) == old(self).font_color.base.inline.spec_get(e2),
            final(self).font_color.base.links == old(self).font_color.base.links,
            final(self).font_color.base.rule_values == old(self).font_color.base.rule_values,
            final(self).font_color.base.default == old(self).font_color.base.default,
            final(self).font_color.active == old(self).font_color.active,
            final(self).font_color.animations == old(self).font_color.animations,
            final(self).font_color.rule_transitions == old(self).font_color.rule_transitions,
            *final(self) == (Style { font_color: final(self).font_color, ..*old(self) }),
    {
        self.font_color.insert(entity, value);
    }

    /// The stacking order of `entity`, 0 if none was set.
    pub fn get_z_order(&self, entity: Entity) -> (v: i32)
        ensures
            v == match self.z_order.spec_get(entity) {
                Some(z) => z,
                None => 0i32,
            },
    {
        self.z_order.get_or(entity, 0)
    }

    /// Set the stacking order of `entity`.
    pub fn set_z_order(&mut self, entity: Entity, value: i32)
        ensures
            !entity.spec_is_null() ==> final(self).z_order.spec_get(entity) == Some(value),
            forall|e2: Entity|
                e2.spec_index() != entity.spec_index() ==> final(self).z_order.spec_get(e2) == old(
                    self,
                ).z_order.spec_get(e2),
            *final(self) == (Style { z_order: final(self).z_order, ..*old(self) }),
    {
        self.z_order.insert(entity, value);
    }

    /// Hand the facade one rule programmatically, bypassing parsing; it
    /// joins the cascade behind the stylesheet's rules at the next theme
    /// load.
    pub fn insert_style_rule(&mut self, style_rule: StyleRule)
        ensures
            final(self).style_rules@ == old(self).style_rules@.push(style_rule),
            *final(self) == (Style { style_rules: final(self).style_rules, ..*old(self) }),
    {
        self.style_rules.push(style_rule);
    }

}


} // verus!
