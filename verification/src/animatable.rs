use vstd::prelude::*;

use crate::animation::{
    spec_playable_keyframes, ActiveTransition, AnimationState, Interpolate,
};
use crate::dense::DenseStorage;
use crate::entity::Entity;
use crate::storage::{spec_winner, MatchedRule, PropertyStorage};

verus! {

/// Typed storage for one animatable property: the plain cascade storage,
/// plus named transition templates, per-rule `transition` declarations,
/// and the in-flight transition each entity may be playing.
///
/// The displayed value puts the three layers in order: an in-flight
/// transition's output first, then the inline override, then the linked
/// rule's value, then the type default.
pub struct AnimatableStorage<T> {
    pub base: PropertyStorage<T>,
    pub animations: Vec<AnimationState<T>>,
    pub rule_transitions: Vec<Option<AnimationState<T>>>,
    pub active: DenseStorage<ActiveTransition<T>>,
}

/// The value a transition is heading for: its last keyframe's value.
pub open spec fn spec_transition_target<T: Interpolate>(tr: ActiveTransition<T>) -> T {
    if tr.keyframes@.len() > 0 {
        tr.keyframes@[tr.keyframes@.len() - 1].1
    } else {
        tr.output
    }
}

impl<T: Interpolate> AnimatableStorage<T> {
    /// The transition template rule `id` declares, if any.
    pub open spec fn spec_rule_transition(&self, id: int) -> Option<AnimationState<T>> {
        if 0 <= id < self.rule_transitions@.len() {
            self.rule_transitions@[id]
        } else {
            None
        }
    }

    /// The displayed value for `e`: the in-flight transition's output if
    /// one is playing, else the plain resolved value.
    pub open spec fn spec_current(&self, e: Entity) -> T {
        match self.active.spec_get(e) {
            Some(tr) => tr.output,
            None => self.base.spec_resolved(e),
        }
    }

    /// No per-entity state is held for `e`.
    pub open spec fn spec_absent(&self, e: Entity) -> bool {
        self.base.spec_absent(e) && self.active.spec_get(e) is None
    }

    pub fn new(default: T) -> (s: Self)
        ensures
            s.base.default == default,
            forall|id: int| s.base.spec_rule_value(id) is None,
            forall|id: int| s.spec_rule_transition(id) is None,
            s.animations@.len() == 0,
            forall|e: Entity| s.spec_absent(e),
            forall|e: Entity| s.spec_current(e) == default,
    {
        AnimatableStorage {
            base: PropertyStorage::new(default),
            animations: Vec::new(),
            rule_transitions: Vec::new(),
            active: DenseStorage::new(),
        }
    }

    /// Record the value rule `rule_id` assigns to this property.
    pub fn insert_rule(&mut self, rule_id: usize, value: T)
        requires
            rule_id < usize::MAX,
        ensures
            final(self).base.spec_rule_value(rule_id as int) == Some(value),
            forall|id: int|
                id != rule_id ==> final(self).base.spec_rule_value(id) == old(
                    self,
                ).base.spec_rule_value(id),
            final(self).base.inline == old(self).base.inline,
            final(self).base.links == old(self).base.links,
            final(self).base.default == old(self).base.default,
            final(self).animations == old(self).animations,
            final(self).rule_transitions == old(self).rule_transitions,
            final(self).active == old(self).active,
    {
        self.base.insert_rule(rule_id, value);
    }

    /// Record the transition template rule `rule_id` declares for this
    /// property.
    pub fn insert_transition(&mut self, rule_id: usize, animation: AnimationState<T>)
        requires
            rule_id < usize::MAX,
        ensures
            final(self).spec_rule_transition(rule_id as int) == Some(animation),
            forall|id: int|
                id != rule_id ==> final(self).spec_rule_transition(id) == old(
                    self,
                ).spec_rule_transition(id),
            final(self).base == old(self).base,
            final(self).animations == old(self).animations,
            final(self).active == old(self).active,
    {
        while self.rule_transitions.len() <= rule_id
            invariant
                self.base == old(self).base,
                self.animations == old(self).animations,
                self.active == old(self).active,
                forall|id: int| self.spec_rule_transition(id) == old(self).spec_rule_transition(id),
            decreases rule_id + 1 - self.rule_transitions.len(),
        {
            self.rule_transitions.push(None);
        }
        self.rule_transitions[rule_id] = Some(animation);
    }

    /// Register a named animation template and return its id, for later
    /// explicit play requests.
    pub fn insert_animation(&mut self, animation: AnimationState<T>) -> (id: usize)
        ensures
            id == old(self).animations@.len(),
            final(self).animations@ == old(self).animations@.push(animation),
            final(self).base == old(self).base,
            final(self).rule_transitions == old(self).rule_transitions,
            final(self).active == old(self).active,
    {
        let id = self.animations.len();
        self.animations.push(animation);
        id
    }

    /// Drop the rule layer, the per-rule transition templates and every
    /// link, as when a new stylesheet replaces the table wholesale.
    /// Inline overrides and in-flight transitions survive.
    pub fn clear_rules(&mut self)
        ensures
            forall|id: int| final(self).base.spec_rule_value(id) is None,
            forall|id: int| final(self).spec_rule_transition(id) is None,
            forall|e: Entity| final(self).base.links.spec_get(e) is None,
            final(self).base.inline == old(self).base.inline,
            final(self).base.default == old(self).base.default,
            final(self).animations == old(self).animations,
            final(self).active == old(self).active,
    {
        self.base.clear_rules();
        self.rule_transitions = Vec::new();
    }

    /// Set an inline override for `e`.
    pub fn insert(&mut self, e: Entity, value: T)
        ensures
            !e.spec_is_null() ==> final(self).base.spec_resolved(e) == value,
            e.spec_is_null() ==> final(self).base == old(self).base,
            forall|e2: Entity|
                e2.spec_index() != e.spec_index() ==> final(self).base.inline.spec_get(e2) == old(
                    self,
                ).base.inline.spec_get(e2),
            final(self).base.links == old(self).base.links,
            final(self).base.rule_values == old(self).base.rule_values,
            final(self).base.default == old(self).base.default,
            final(self).animations == old(self).animations,
            final(self).rule_transitions == old(self).rule_transitions,
            final(self).active == old(self).active,
    {
        self.base.insert(e, value);
    }

    /// Clear the inline override for `e`.
    pub fn remove_override(&mut self, e: Entity)
        ensures
            final(self).base.inline.spec_get(e) is None,
            forall|e2: Entity|
                e2.spec_index() != e.spec_index() ==> final(self).base.inline.spec_get(e2) == old(
                    self,
                ).base.inline.spec_get(e2),
            final(self).base.links == old(self).base.links,
            final(self).base.rule_values == old(self).base.rule_values,
            final(self).base.default == old(self).base.default,
            final(self).animations == old(self).animations,
            final(self).rule_transitions == old(self).rule_transitions,
            final(self).active == old(self).active,
    {
        self.base.remove_override(e);
    }

    /// Drop all per-entity state for `e`; afterwards `e` displays the
    /// default.
    pub fn remove(&mut self, e: Entity)
        ensures
            final(self).spec_absent(e),
            final(self).spec_current(e) == old(self).base.default,
            forall|e2: Entity|
                e2.spec_index() != e.spec_index() ==> {
                    &&& final(self).base.inline.spec_get(e2) == old(self).base.inline.spec_get(e2)
                    &&& final(self).base.links.spec_get(e2) == old(self).base.links.spec_get(e2)
                    &&& final(self).active.spec_get(e2) == old(self).active.spec_get(e2)
                },
            final(self).base.rule_values == old(self).base.rule_values,
            final(self).base.default == old(self).base.default,
            final(self).animations == old(self).animations,
            final(self).rule_transitions == old(self).rule_transitions,
    {
        self.base.remove(e);
        self.active.remove(e);
    }

    /// The displayed value for `e`; total, with the type default as the
    /// final fallback.
    pub fn get(&self, e: Entity) -> (v: T)
        ensures
            v == self.spec_current(e),
    {
        match self.active.get(e) {
            Some(tr) => tr.output,
            None => self.base.get(e),
        }
    }

    /// Play the named animation template for `e`, starting at `now_ms`.
    ///
    /// A play request on an idle entity instantiates the template's own
    /// keyframes. A play request that interrupts an in-flight transition
    /// captures the currently displayed value as the new starting
    /// keyframe, so the restart shows no discontinuity. An unknown or
    /// unplayable template, or the null entity, makes this a no-op.
    pub fn play_animation(&mut self, e: Entity, animation: usize, now_ms: u64)
        ensures
            ({
                let valid = animation < old(self).animations@.len() && old(
                    self,
                ).animations@[animation as int].spec_playable() && !e.spec_is_null();
                &&& !valid ==> *final(self) == *old(self)
                &&& valid ==> {
                    let t = old(self).animations@[animation as int];
                    let kfs = match old(self).active.spec_get(e) {
                        Some(otr) => t.keyframes@.update(0, (0u16, otr.spec_output_at(now_ms))),
                        None => t.keyframes@,
                    };
                    &&& match final(self).active.spec_get(e) {
                        Some(ntr) => {
                            &&& ntr.start_ms == now_ms
                            &&& ntr.duration_ms == t.duration_ms
                            &&& ntr.delay_ms == t.delay_ms
                            &&& ntr.keyframes@ == kfs
                            &&& ntr.output == ntr.spec_output_at(now_ms)
                        },
                        None => false,
                    }
                    &&& forall|e2: Entity|
                        e2.spec_index() != e.spec_index() ==> final(self).active.spec_get(e2)
                            == old(self).active.spec_get(e2)
                    &&& final(self).base == old(self).base
                    &&& final(self).animations == old(self).animations
                    &&& final(self).rule_transitions == old(self).rule_transitions
                }
            }),
    {
        if e.is_null() {
            return;
        }
        if animation >= self.animations.len() {
            return;
        }
        let playable = self.animations[animation].playable();
        if !playable {
            return;
        }
        let from_opt: Option<T> = match self.active.get(e) {
            Some(tr) => Some(tr.output_at(now_ms)),
            None => None,
        };
        let t_dur = self.animations[animation].duration_ms;
        let t_del = self.animations[animation].delay_ms;
        let mut kfs = clone_keyframes(&self.animations[animation].keyframes);
        let ghost template_kfs = kfs@;
        match from_opt {
            Some(v) => {
                kfs[0] = (0u16, v);
            },
            None => {},
        }
        proof {
            lemma_endpoint_update_playable(template_kfs, kfs@);
        }
        let first_val = kfs[0].1;
        let mut tr = ActiveTransition {
            start_ms: now_ms,
            duration_ms: t_dur,
            delay_ms: t_del,
            keyframes: kfs,
            output: first_val,
        };
        let out = tr.output_at(now_ms);
        tr.output = out;
        self.active.insert(e, tr);
    }

    /// The value the cascade would hand `e` for this property, before the
    /// animation layer: inline override first, then the winning rule's
    /// value, then the default.
    pub open spec fn spec_link_target(&self, ms: Seq<MatchedRule>, e: Entity) -> T {
        match self.base.inline.spec_get(e) {
            Some(v) => v,
            None => match spec_winner(self.base.rule_values@, ms) {
                Some(b) => match self.base.spec_rule_value(b.rule_id as int) {
                    Some(v) => v,
                    None => self.base.default,
                },
                None => self.base.default,
            },
        }
    }

    /// The transition template declared by the rule that wins the
    /// cascade, if any.
    pub open spec fn spec_link_template(&self, ms: Seq<MatchedRule>) -> Option<AnimationState<T>> {
        match spec_winner(self.base.rule_values@, ms) {
            Some(b) => self.spec_rule_transition(b.rule_id as int),
            None => None,
        }
    }

    /// A new cascade target supersedes the current state: either no
    /// transition is playing and the displayed value differs from the
    /// target, or the one playing heads for a different value.
    pub open spec fn spec_retarget(&self, e: Entity, target: T) -> bool {
        match self.active.spec_get(e) {
            Some(tr) => spec_transition_target(tr) != target,
            None => self.spec_current(e) != target,
        }
    }

    /// Re-link `e` to the rule that wins the cascade for it, and start,
    /// keep or drop its transition accordingly.
    ///
    /// If the winning rule declares a playable transition template and
    /// the cascade target is new, a transition starts at `now_ms` from
    /// the currently displayed value towards the target, using the
    /// template's timing and intermediate keyframes. If the target is
    /// unchanged, an in-flight transition keeps playing undisturbed. If
    /// no playable template applies, any in-flight transition is dropped
    /// and the plain resolved value shows.
    /// What one cascade re-link pass does to this storage: `e`'s link
    /// points at the winner among the matched rules; a playable template
    /// on the winning rule starts a transition towards a new target from
    /// the currently displayed value, an unchanged target leaves the
    /// in-flight transition alone, and without a playable template any
    /// in-flight transition is dropped.
    pub open spec fn spec_linked(
        pre: Self,
        post: Self,
        e: Entity,
        ms: Seq<MatchedRule>,
        now_ms: u64,
    ) -> bool {
        &&& post.base.inline == pre.base.inline
        &&& post.base.rule_values == pre.base.rule_values
        &&& post.base.default == pre.base.default
        &&& post.animations == pre.animations
        &&& post.rule_transitions == pre.rule_transitions
        &&& (!e.spec_is_null() ==> post.base.links.spec_get(e) == match spec_winner(
            pre.base.rule_values@,
            ms,
        ) {
            Some(b) => Some(b.rule_id),
            None => None::<usize>,
        })
        &&& forall|e2: Entity|
            e2.spec_index() != e.spec_index() ==> {
                &&& post.base.links.spec_get(e2) == pre.base.links.spec_get(e2)
                &&& post.active.spec_get(e2) == pre.active.spec_get(e2)
            }
        &&& (e.spec_is_null() ==> post.active == pre.active)
        &&& (!e.spec_is_null() ==> Self::spec_transition_effect(pre, post, e, ms, now_ms))
    }

    /// The transition a re-link pass starts for `e`: the winning rule's
    /// template timing and intermediate keyframes, running from the value
    /// displayed when the pass ran towards the new cascade target.
    pub open spec fn spec_started_transition(
        t: AnimationState<T>,
        from: T,
        target: T,
        ntr: ActiveTransition<T>,
        now_ms: u64,
    ) -> bool {
        &&& ntr.start_ms == now_ms
        &&& ntr.duration_ms == t.duration_ms
        &&& ntr.delay_ms == t.delay_ms
        &&& ntr.keyframes@ == t.keyframes@.update(0, (0u16, from)).update(
            (t.keyframes@.len() - 1) as int,
            (1000u16, target),
        )
        &&& ntr.output == ntr.spec_output_at(now_ms)
    }

    /// What a re-link pass does to `e`'s in-flight transition: start one
    /// towards a new target when the winning rule declares a playable
    /// template, keep the running one when the target is unchanged, and
    /// drop it when no playable template applies.
    pub open spec fn spec_transition_effect(
        pre: Self,
        post: Self,
        e: Entity,
        ms: Seq<MatchedRule>,
        now_ms: u64,
    ) -> bool {
        let target = pre.spec_link_target(ms, e);
        match pre.spec_link_template(ms) {
            Some(t) => if t.spec_playable() && pre.spec_retarget(e, target) {
                match post.active.spec_get(e) {
                    Some(ntr) => Self::spec_started_transition(
                        t,
                        pre.spec_current(e),
                        target,
                        ntr,
                        now_ms,
                    ),
                    None => false,
                }
            } else if t.spec_playable() {
                post.active.spec_get(e) == pre.active.spec_get(e)
            } else {
                post.active.spec_get(e) is None
            },
            None => post.active.spec_get(e) is None,
        }
    }

    pub fn link(&mut self, e: Entity, ms: &Vec<MatchedRule>, now_ms: u64)
        ensures
            Self::spec_linked(*old(self), *final(self), e, ms@, now_ms),
    {
        let w = self.base.winner(ms);
        if e.is_null() {
            self.base.set_link(e, w);
            return;
        }
        let old_displayed = self.get(e);
        let target: T = match self.base.inline.get(e) {
            Some(v) => *v,
            None => match w {
                Some(b) => match self.base.rule_value(b.rule_id) {
                    Some(v) => v,
                    None => self.base.default,
                },
                None => self.base.default,
            },
        };
        self.base.set_link(e, w);
        let mut has_template = false;
        let mut t_dur: u64 = 0;
        let mut t_del: u64 = 0;
        let mut kfs_build: Option<Vec<(u16, T)>> = None;
        match w {
            Some(b) => {
                if b.rule_id < self.rule_transitions.len() {
                    match &self.rule_transitions[b.rule_id] {
                        Some(t) => {
                            if t.playable() {
                                has_template = true;
                                t_dur = t.duration_ms;
                                t_del = t.delay_ms;
                                kfs_build = Some(clone_keyframes(&t.keyframes));
                            }
                        },
                        None => {},
                    }
                }
            },
            None => {},
        }
        if !has_template {
            self.active.remove(e);
            return;
        }
        let retarget: bool = match self.active.get(e) {
            Some(tr) => {
                let cur_target = if tr.keyframes.len() > 0 {
                    tr.keyframes[tr.keyframes.len() - 1].1
                } else {
                    tr.output
                };
                !T::same(cur_target, target)
            },
            None => !T::same(old_displayed, target),
        };
        if retarget {
            let mut kfs = kfs_build.unwrap();
            let ghost template_kfs = kfs@;
            kfs[0] = (0u16, old_displayed);
            let last = kfs.len() - 1;
            kfs[last] = (1000u16, target);
            proof {
                lemma_endpoint_update_playable(
                    template_kfs,
                    template_kfs.update(0, (0u16, old_displayed)),
                );
                lemma_endpoint_update_playable(
                    template_kfs.update(0, (0u16, old_displayed)),
                    kfs@,
                );
            }
            let mut tr = ActiveTransition {
                start_ms: now_ms,
                duration_ms: t_dur,
                delay_ms: t_del,
                keyframes: kfs,
                output: old_displayed,
            };
            let out = tr.output_at(now_ms);
            tr.output = out;
            self.active.insert(e, tr);
        }
    }


    /// Ticking is idempotent within a frame: a second tick at the same
    /// time leaves every transition's record exactly as the first left
    /// it.
    pub proof fn lemma_tick_idempotent(pre: Self, mid: Self, post: Self, now_ms: u64)
        requires
            Self::spec_ticked(pre, mid, now_ms),
            Self::spec_ticked(mid, post, now_ms),
        ensures
            forall|e: Entity| post.active.spec_get(e) == mid.active.spec_get(e),
            post.base == mid.base,
            post.animations == mid.animations,
            post.rule_transitions == mid.rule_transitions,
    {
        assert forall|e: Entity| post.active.spec_get(e) == mid.active.spec_get(e) by {
            match pre.active.spec_get(e) {
                Some(tr) => {
                    let tr1 = ActiveTransition { output: tr.spec_output_at(now_ms), ..tr };
                    assert(mid.active.spec_get(e) == Some(tr1));
                    assert(tr1.spec_output_at(now_ms) == tr1.output);
                },
                None => {},
            }
        }
    }

    /// Advance every in-flight transition to time `now_ms`, recomputing
    /// its output value. Finished transitions pin at their last keyframe
    /// until a new play request or cascade target supersedes them.
    /// What one frame tick does to this storage: every in-flight
    /// transition's output advances to its value at `now_ms`, and nothing
    /// else changes.
    pub open spec fn spec_ticked(pre: Self, post: Self, now_ms: u64) -> bool {
        &&& forall|e: Entity|
            post.active.spec_get(e) == match #[trigger] pre.active.spec_get(e) {
                Some(tr) => Some(ActiveTransition { output: tr.spec_output_at(now_ms), ..tr }),
                None => None::<ActiveTransition<T>>,
            }
        &&& post.base == pre.base
        &&& post.animations == pre.animations
        &&& post.rule_transitions == pre.rule_transitions
    }

    pub fn tick(&mut self, now_ms: u64)
        ensures
            Self::spec_ticked(*old(self), *final(self), now_ms),
    {
        let n = self.active.entries.len();
        let mut i: usize = 0;
        while i < n
            invariant
                n == self.active.entries@.len(),
                self.base == old(self).base,
                self.animations == old(self).animations,
                self.rule_transitions == old(self).rule_transitions,
                forall|j: int|
                    0 <= j < i ==> #[trigger] self.active.entries@[j] == match old(
                        self,
                    ).active.entries@[j] {
                        Some(tr) => Some(
                            ActiveTransition { output: tr.spec_output_at(now_ms), ..tr },
                        ),
                        None => None,
                    },
                forall|j: int|
                    i <= j < n ==> #[trigger] self.active.entries@[j] == old(
                        self,
                    ).active.entries@[j],
            decreases n - i,
        {
            let newout: Option<T> = match &self.active.entries[i] {
                Some(tr) => Some(tr.output_at(now_ms)),
                None => None,
            };
            match newout {
                Some(v) => {
                    match &mut self.active.entries[i] {
                        Some(tr) => {
                            tr.output = v;
                        },
                        None => {},
                    }
                },
                None => {},
            }
            i = i + 1;
        }
    }
}

/// Copy a keyframe track element by element.
fn clone_keyframes<T: Interpolate>(kfs: &Vec<(u16, T)>) -> (r: Vec<(u16, T)>)
    ensures
        r@ == kfs@,
{
    let mut r: Vec<(u16, T)> = Vec::new();
    let mut i: usize = 0;
    while i < kfs.len()
        invariant
            i <= kfs@.len(),
            r@ == kfs@.subrange(0, i as int),
        decreases kfs@.len() - i,
    {
        r.push(kfs[i]);
        i = i + 1;
        proof {
            assert(kfs@.subrange(0, i as int) =~= kfs@.subrange(0, i - 1).push(kfs@[i - 1]));
        }
    }
    proof {
        assert(kfs@.subrange(0, kfs@.len() as int) =~= kfs@);
    }
    r
}

/// Replacing an endpoint keyframe's value (keeping its progress anchor)
/// preserves playability.
proof fn lemma_endpoint_update_playable<T>(before: Seq<(u16, T)>, after: Seq<(u16, T)>)
    requires
        after.len() == before.len(),
        forall|i: int| 0 <= i < before.len() ==> (#[trigger] after[i].0) == before[i].0,
    ensures
        spec_playable_keyframes(before) ==> spec_playable_keyframes(after),
{
    if spec_playable_keyframes(before) {
        assert forall|i: int| 0 <= i < after.len() - 1 implies (#[trigger] after[i].0) < after[i
            + 1].0 by {
            assert(before[i].0 < before[i + 1].0);
        }
    }
}

} // verus!
