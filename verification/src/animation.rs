use vstd::arithmetic::div_mod::{
    lemma_div_is_ordered, lemma_div_multiples_vanish, lemma_div_pos_is_pos,
};
use vstd::arithmetic::mul::{lemma_mul_inequality, lemma_mul_is_commutative};
use vstd::prelude::*;

use crate::property::{Color, Length, Opacity};

verus! {

/// Linear interpolation over the integers, truncating towards the `a`
/// endpoint: the value `num`/`den` of the way from `a` to `b`.
pub open spec fn spec_lerp_int(a: int, b: int, num: int, den: int) -> int {
    if den <= 0 {
        a
    } else if b >= a {
        a + (b - a) * num / den
    } else {
        a - (a - b) * num / den
    }
}

/// The interpolated value stays between the endpoints, and hits each
/// endpoint exactly at fraction 0 and 1.
pub proof fn lemma_lerp_int_bounds(a: int, b: int, num: int, den: int)
    requires
        0 < den,
        0 <= num <= den,
    ensures
        a <= b ==> a <= spec_lerp_int(a, b, num, den) <= b,
        b <= a ==> b <= spec_lerp_int(a, b, num, den) <= a,
        num == 0 ==> spec_lerp_int(a, b, num, den) == a,
        num == den ==> spec_lerp_int(a, b, num, den) == b,
{
    let d = if b >= a {
        b - a
    } else {
        a - b
    };
    lemma_mul_nonneg_div_bounds(d, num, den);
    if num == 0 {
        assert(d * 0 == 0);
        lemma_div_multiples_vanish(0, den);
        assert(den * 0 == 0);
    }
    if num == den {
        lemma_div_multiples_vanish(d, den);
        lemma_mul_is_commutative(d, den);
    }
}

/// For `0 <= num <= den` and `d >= 0`: `0 <= d * num / den <= d`, with
/// equality to `d` when `num == den`.
proof fn lemma_mul_nonneg_div_bounds(d: int, num: int, den: int)
    requires
        0 <= d,
        0 < den,
        0 <= num <= den,
    ensures
        0 <= d * num / den <= d,
{
    vstd::arithmetic::mul::lemma_mul_nonnegative(d, num);
    lemma_div_pos_is_pos(d * num, den);
    lemma_mul_inequality(num, den, d);
    lemma_mul_is_commutative(num, d);
    lemma_mul_is_commutative(den, d);
    lemma_div_is_ordered(d * num, d * den, den);
    lemma_div_multiples_vanish(d, den);
    lemma_mul_is_commutative(d, den);
}

/// Bound a product by the product of the bounds.
proof fn lemma_mul_le(x: int, xmax: int, y: int, ymax: int)
    requires
        0 <= x <= xmax,
        0 <= y <= ymax,
    ensures
        x * y <= xmax * ymax,
{
    lemma_mul_inequality(x, xmax, y);
    lemma_mul_is_commutative(xmax, y);
    lemma_mul_inequality(y, ymax, xmax);
    lemma_mul_is_commutative(ymax, xmax);
}

/// A value that a transition can animate: it knows how to interpolate
/// between two of its values.
pub trait Interpolate: Sized + Copy {
    /// The value `num`/`den` of the way from `a` to `b`.
    spec fn spec_lerp(a: Self, b: Self, num: int, den: int) -> Self;

    /// Interpolation hits `a` exactly at fraction 0 and `b` exactly at 1.
    proof fn lemma_lerp_endpoints(a: Self, b: Self, den: int)
        requires
            0 < den,
        ensures
            Self::spec_lerp(a, b, 0, den) == a,
            Self::spec_lerp(a, b, den, den) == b,
    ;

    /// Compute the interpolated value.
    fn lerp(a: Self, b: Self, num: u16, den: u16) -> (r: Self)
        requires
            0 < den,
            num <= den,
        ensures
            r == Self::spec_lerp(a, b, num as int, den as int),
    ;

    /// Decide equality of two values.
    fn same(a: Self, b: Self) -> (r: bool)
        ensures
            r == (a == b),
    ;
}

/// Interpolate between two byte channels.
fn lerp_u8(a: u8, b: u8, num: u16, den: u16) -> (r: u8)
    requires
        0 < den,
        num <= den,
    ensures
        r as int == spec_lerp_int(a as int, b as int, num as int, den as int),
{
    proof {
        lemma_lerp_int_bounds(a as int, b as int, num as int, den as int);
    }
    if b >= a {
        let d = (b - a) as u32;
        proof {
            lemma_mul_le(d as int, 0xFF, num as int, 0xFFFF);
        }
        let s = (d * (num as u32)) / (den as u32);
        a + (s as u8)
    } else {
        let d = (a - b) as u32;
        proof {
            lemma_mul_le(d as int, 0xFF, num as int, 0xFFFF);
        }
        let s = (d * (num as u32)) / (den as u32);
        a - (s as u8)
    }
}

/// Interpolate between two `u16` values.
fn lerp_u16(a: u16, b: u16, num: u16, den: u16) -> (r: u16)
    requires
        0 < den,
        num <= den,
    ensures
        r as int == spec_lerp_int(a as int, b as int, num as int, den as int),
{
    proof {
        lemma_lerp_int_bounds(a as int, b as int, num as int, den as int);
    }
    if b >= a {
        let d = (b - a) as u32;
        proof {
            lemma_mul_le(d as int, 0xFFFF, num as int, 0xFFFF);
        }
        let s = (d * (num as u32)) / (den as u32);
        a + (s as u16)
    } else {
        let d = (a - b) as u32;
        proof {
            lemma_mul_le(d as int, 0xFFFF, num as int, 0xFFFF);
        }
        let s = (d * (num as u32)) / (den as u32);
        a - (s as u16)
    }
}

/// Interpolate between two `u32` values.
fn lerp_u32(a: u32, b: u32, num: u16, den: u16) -> (r: u32)
    requires
        0 < den,
        num <= den,
    ensures
        r as int == spec_lerp_int(a as int, b as int, num as int, den as int),
{
    proof {
        lemma_lerp_int_bounds(a as int, b as int, num as int, den as int);
    }
    if b >= a {
        let d = (b - a) as u64;
        proof {
            lemma_mul_le(d as int, 0xFFFF_FFFF, num as int, 0xFFFF);
        }
        let s = (d * (num as u64)) / (den as u64);
        a + (s as u32)
    } else {
        let d = (a - b) as u64;
        proof {
            lemma_mul_le(d as int, 0xFFFF_FFFF, num as int, 0xFFFF);
        }
        let s = (d * (num as u64)) / (den as u64);
        a - (s as u32)
    }
}

/// Interpolate between two `i32` values.
fn lerp_i32(a: i32, b: i32, num: u16, den: u16) -> (r: i32)
    requires
        0 < den,
        num <= den,
    ensures
        r as int == spec_lerp_int(a as int, b as int, num as int, den as int),
{
    proof {
        lemma_lerp_int_bounds(a as int, b as int, num as int, den as int);
    }
    if b >= a {
        let d = ((b as i64) - (a as i64)) as u64;
        proof {
            lemma_mul_le(d as int, 0x1_0000_0000, num as int, 0xFFFF);
        }
        let s = (d * (num as u64)) / (den as u64);
        ((a as i64) + (s as i64)) as i32
    } else {
        let d = ((a as i64) - (b as i64)) as u64;
        proof {
            lemma_mul_le(d as int, 0x1_0000_0000, num as int, 0xFFFF);
        }
        let s = (d * (num as u64)) / (den as u64);
        ((a as i64) - (s as i64)) as i32
    }
}

impl Interpolate for Opacity {
    open spec fn spec_lerp(a: Opacity, b: Opacity, num: int, den: int) -> Opacity {
        Opacity(spec_lerp_int(a.0 as int, b.0 as int, num, den) as u16)
    }

    proof fn lemma_lerp_endpoints(a: Opacity, b: Opacity, den: int) {
        lemma_lerp_int_bounds(a.0 as int, b.0 as int, 0, den);
        lemma_lerp_int_bounds(a.0 as int, b.0 as int, den, den);
    }

    fn lerp(a: Opacity, b: Opacity, num: u16, den: u16) -> (r: Opacity) {
        Opacity(lerp_u16(a.0, b.0, num, den))
    }

    fn same(a: Opacity, b: Opacity) -> (r: bool) {
        a.0 == b.0
    }
}

impl Interpolate for Color {
    open spec fn spec_lerp(a: Color, b: Color, num: int, den: int) -> Color {
        Color {
            r: spec_lerp_int(a.r as int, b.r as int, num, den) as u8,
            g: spec_lerp_int(a.g as int, b.g as int, num, den) as u8,
            b: spec_lerp_int(a.b as int, b.b as int, num, den) as u8,
            a: spec_lerp_int(a.a as int, b.a as int, num, den) as u8,
        }
    }

    proof fn lemma_lerp_endpoints(a: Color, b: Color, den: int) {
        lemma_lerp_int_bounds(a.r as int, b.r as int, 0, den);
        lemma_lerp_int_bounds(a.g as int, b.g as int, 0, den);
        lemma_lerp_int_bounds(a.b as int, b.b as int, 0, den);
        lemma_lerp_int_bounds(a.a as int, b.a as int, 0, den);
        lemma_lerp_int_bounds(a.r as int, b.r as int, den, den);
        lemma_lerp_int_bounds(a.g as int, b.g as int, den, den);
        lemma_lerp_int_bounds(a.b as int, b.b as int, den, den);
        lemma_lerp_int_bounds(a.a as int, b.a as int, den, den);
    }

    fn lerp(a: Color, b: Color, num: u16, den: u16) -> (r: Color) {
        Color {
            r: lerp_u8(a.r, b.r, num, den),
            g: lerp_u8(a.g, b.g, num, den),
            b: lerp_u8(a.b, b.b, num, den),
            a: lerp_u8(a.a, b.a, num, den),
        }
    }

    fn same(a: Color, b: Color) -> (r: bool) {
        a.r == b.r && a.g == b.g && a.b == b.b && a.a == b.a
    }
}

impl Interpolate for Length {
    /// Lengths of the same kind interpolate componentwise; mismatched
    /// kinds switch discretely from `a` to `b` at fraction 1.
    open spec fn spec_lerp(a: Length, b: Length, num: int, den: int) -> Length {
        match (a, b) {
            (Length::Pixels(x), Length::Pixels(y)) => Length::Pixels(
                spec_lerp_int(x as int, y as int, num, den) as i32,
            ),
            (Length::Percentage(x), Length::Percentage(y)) => Length::Percentage(
                spec_lerp_int(x as int, y as int, num, den) as u32,
            ),
            _ => if num < den {
                a
            } else {
                b
            },
        }
    }

    proof fn lemma_lerp_endpoints(a: Length, b: Length, den: int) {
        match (a, b) {
            (Length::Pixels(x), Length::Pixels(y)) => {
                lemma_lerp_int_bounds(x as int, y as int, 0, den);
                lemma_lerp_int_bounds(x as int, y as int, den, den);
            },
            (Length::Percentage(x), Length::Percentage(y)) => {
                lemma_lerp_int_bounds(x as int, y as int, 0, den);
                lemma_lerp_int_bounds(x as int, y as int, den, den);
            },
            _ => {},
        }
    }

    fn lerp(a: Length, b: Length, num: u16, den: u16) -> (r: Length) {
        match (a, b) {
            (Length::Pixels(x), Length::Pixels(y)) => Length::Pixels(lerp_i32(x, y, num, den)),
            (Length::Percentage(x), Length::Percentage(y)) => Length::Percentage(
                lerp_u32(x, y, num, den),
            ),
            _ => if num < den {
                a
            } else {
                b
            },
        }
    }

    fn same(a: Length, b: Length) -> (r: bool) {
        match (a, b) {
            (Length::Auto, Length::Auto) => true,
            (Length::Pixels(x), Length::Pixels(y)) => x == y,
            (Length::Percentage(x), Length::Percentage(y)) => x == y,
            _ => false,
        }
    }
}

/// A well-formed keyframe track: at least the two endpoint keyframes,
/// anchored at progress 0 and 1000, strictly ascending in between.
pub open spec fn spec_playable_keyframes<T>(kfs: Seq<(u16, T)>) -> bool {
    &&& kfs.len() >= 2
    &&& kfs[0].0 == 0
    &&& kfs[kfs.len() - 1].0 == 1000
    &&& forall|i: int| 0 <= i < kfs.len() - 1 ==> (#[trigger] kfs[i].0) < kfs[i + 1].0
}

/// Exec check of `spec_playable_keyframes`.
pub fn keyframes_playable<T: Copy>(kfs: &Vec<(u16, T)>) -> (b: bool)
    ensures
        b == spec_playable_keyframes(kfs@),
{
    if kfs.len() < 2 {
        return false;
    }
    if kfs[0].0 != 0 {
        return false;
    }
    if kfs[kfs.len() - 1].0 != 1000 {
        return false;
    }
    let mut i: usize = 0;
    while i < kfs.len() - 1
        invariant
            i <= kfs@.len() - 1,
            kfs@.len() >= 2,
            forall|k: int| 0 <= k < i ==> (#[trigger] kfs@[k].0) < kfs@[k + 1].0,
        decreases kfs@.len() - i,
    {
        if kfs[i].0 >= kfs[i + 1].0 {
            return false;
        }
        i = i + 1;
    }
    true
}

/// The index of the keyframe pair bracketing progress `p`: the largest
/// `i <= len - 2` whose keyframe starts at or before `p`.
pub open spec fn spec_bracket_from<T>(kfs: Seq<(u16, T)>, p: int, i: int) -> int
    decreases i,
{
    if i <= 0 {
        0
    } else if kfs[i].0 <= p {
        i
    } else {
        spec_bracket_from(kfs, p, i - 1)
    }
}

pub open spec fn spec_bracket<T>(kfs: Seq<(u16, T)>, p: int) -> int {
    spec_bracket_from(kfs, p, kfs.len() - 2)
}

/// The piecewise-linear sample of a keyframe track at progress `p`: the
/// interpolation between the two keyframes bracketing `p`.
pub open spec fn spec_sample<T: Interpolate>(kfs: Seq<(u16, T)>, p: u16) -> T {
    let i = spec_bracket(kfs, p as int);
    let lo = kfs[i];
    let hi = kfs[i + 1];
    T::spec_lerp(lo.1, hi.1, p - lo.0, hi.0 - lo.0)
}

/// Sample a playable keyframe track at progress `p` (in thousandths).
pub fn sample_keyframes<T: Interpolate>(kfs: &Vec<(u16, T)>, p: u16) -> (r: T)
    requires
        spec_playable_keyframes(kfs@),
        p <= 1000,
    ensures
        r == spec_sample(kfs@, p),
{
    let mut i: usize = kfs.len() - 2;
    while i > 0 && kfs[i].0 > p
        invariant
            i <= kfs@.len() - 2,
            spec_bracket(kfs@, p as int) == spec_bracket_from(kfs@, p as int, i as int),
            i == kfs@.len() - 2 || kfs@[i + 1].0 > p,
        decreases i,
    {
        i = i - 1;
    }
    let lo = kfs[i];
    let hi = kfs[i + 1];
    proof {
        assert(spec_bracket(kfs@, p as int) == i);
        if i + 1 == kfs@.len() - 1 {
            assert(hi.0 == 1000);
        }
    }
    let num = p - lo.0;
    let den = hi.0 - lo.0;
    T::lerp(lo.1, hi.1, num, den)
}

/// One in-flight transition for one `(entity, property)` pair: its start
/// time and timing, its instantiated keyframe track (whose endpoints hold
/// the captured `from` and `to` values), and the output value computed at
/// the last tick.
#[derive(Clone, Debug)]
pub struct ActiveTransition<T> {
    pub start_ms: u64,
    pub duration_ms: u64,
    pub delay_ms: u64,
    pub keyframes: Vec<(u16, T)>,
    pub output: T,
}

/// Progress of a transition at time `t`, in thousandths, before clamping:
/// only meaningful while `t` lies inside the transition's running window.
pub open spec fn spec_progress(start: u64, delay: u64, duration: u64, t: u64) -> u16 {
    (((t - start - delay) * 1000) / (duration as int)) as u16
}

impl<T: Interpolate> ActiveTransition<T> {
    /// The transition has played to completion at time `t`.
    pub open spec fn spec_finished(&self, t: u64) -> bool {
        t >= self.start_ms + self.delay_ms + self.duration_ms
    }

    /// The value this transition shows at time `t`.
    ///
    /// Before the delay has elapsed the output pins at the first keyframe
    /// (the captured `from`); after the duration has elapsed it pins at
    /// the last keyframe (the captured `to`); in between it is the
    /// piecewise-linear sample at the elapsed fraction of the duration.
    pub open spec fn spec_output_at(&self, t: u64) -> T {
        if !spec_playable_keyframes(self.keyframes@) {
            self.output
        } else if t < self.start_ms + self.delay_ms {
            self.keyframes@[0].1
        } else if t - self.start_ms - self.delay_ms >= self.duration_ms {
            self.keyframes@[self.keyframes@.len() - 1].1
        } else {
            spec_sample(
                self.keyframes@,
                spec_progress(self.start_ms, self.delay_ms, self.duration_ms, t),
            )
        }
    }

    /// Compute the value this transition shows at time `t`. Total: a
    /// degenerate keyframe track keeps the last computed output.
    pub fn output_at(&self, t: u64) -> (r: T)
        ensures
            r == self.spec_output_at(t),
    {
        if !keyframes_playable(&self.keyframes) {
            return self.output;
        }
        let window_start: u128 = (self.start_ms as u128) + (self.delay_ms as u128);
        if (t as u128) < window_start {
            return self.keyframes[0].1;
        }
        let elapsed: u64 = ((t as u128) - window_start) as u64;
        if elapsed >= self.duration_ms {
            return self.keyframes[self.keyframes.len() - 1].1;
        }
        let p128: u128 = ((elapsed as u128) * 1000) / (self.duration_ms as u128);
        proof {
            lemma_progress_bounded(elapsed as int, self.duration_ms as int);
        }
        let p: u16 = p128 as u16;
        sample_keyframes(&self.keyframes, p)
    }
}

/// While a transition is running, its progress in thousandths stays below
/// 1000.
proof fn lemma_progress_bounded(elapsed: int, duration: int)
    requires
        0 <= elapsed < duration,
    ensures
        0 <= elapsed * 1000 / duration < 1000,
        elapsed * 1000 / duration <= 1000,
{
    vstd::arithmetic::mul::lemma_mul_nonnegative(elapsed, 1000);
    lemma_div_pos_is_pos(elapsed * 1000, duration);
    let q = elapsed * 1000 / duration;
    vstd::arithmetic::div_mod::lemma_fundamental_div_mod(elapsed * 1000, duration);
    if q >= 1000 {
        lemma_mul_inequality(1000, q, duration);
        lemma_mul_is_commutative(1000, duration);
        lemma_mul_is_commutative(q, duration);
        lemma_mul_inequality(elapsed, duration - 1, 1000);
        assert(false);
    }
}


/// Before its delay has elapsed a transition pins at its first keyframe
/// (the captured start); once finished it pins at its last keyframe (the
/// target), and stays there for all later times.
pub proof fn lemma_transition_endpoints<T: Interpolate>(tr: ActiveTransition<T>, t: u64)
    requires
        spec_playable_keyframes(tr.keyframes@),
    ensures
        t < tr.start_ms + tr.delay_ms ==> tr.spec_output_at(t) == tr.keyframes@[0].1,
        tr.spec_finished(t) ==> tr.spec_output_at(t) == tr.keyframes@[tr.keyframes@.len() - 1].1,
{
}

/// A named transition template: duration, delay and a keyframe track,
/// cloned into an `ActiveTransition` each time it is played for an
/// entity.
#[derive(Clone, Debug)]
pub struct AnimationState<T> {
    pub duration_ms: u64,
    pub delay_ms: u64,
    pub keyframes: Vec<(u16, T)>,
}

impl<T: Copy> AnimationState<T> {
    /// The template holds a well-formed keyframe track and can be played.
    pub open spec fn spec_playable(&self) -> bool {
        spec_playable_keyframes(self.keyframes@)
    }

    pub fn new() -> (r: Self)
        ensures
            r.duration_ms == 0,
            r.delay_ms == 0,
            r.keyframes@.len() == 0,
    {
        AnimationState { duration_ms: 0, delay_ms: 0, keyframes: Vec::new() }
    }

    /// Builder: set the duration, in milliseconds.
    pub fn with_duration(self, ms: u64) -> (r: Self)
        ensures
            r == (AnimationState { duration_ms: ms, ..self }),
    {
        AnimationState { duration_ms: ms, ..self }
    }

    /// Builder: set the delay before the first keyframe applies, in
    /// milliseconds.
    pub fn with_delay(self, ms: u64) -> (r: Self)
        ensures
            r == (AnimationState { delay_ms: ms, ..self }),
    {
        AnimationState { delay_ms: ms, ..self }
    }

    /// Builder: append a `(progress, value)` keyframe, with progress in
    /// thousandths. Keyframes must be appended in strictly ascending
    /// progress order; an out-of-order keyframe is ignored.
    pub fn with_keyframe(self, keyframe: (u16, T)) -> (r: Self)
        ensures
            r.duration_ms == self.duration_ms,
            r.delay_ms == self.delay_ms,
            r.keyframes@ == if self.keyframes@.len() == 0 || self.keyframes@[self.keyframes@.len()
                - 1].0 < keyframe.0 {
                self.keyframes@.push(keyframe)
            } else {
                self.keyframes@
            },
    {
        let mut r = self;
        if r.keyframes.len() == 0 || r.keyframes[r.keyframes.len() - 1].0 < keyframe.0 {
            r.keyframes.push(keyframe);
        }
        r
    }

    /// Exec check that the template can be played.
    pub fn playable(&self) -> (b: bool)
        ensures
            b == self.spec_playable(),
    {
        keyframes_playable(&self.keyframes)
    }
}

} // verus!
