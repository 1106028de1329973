//! LED effects: the kinds of animation and how each advances its colour.

use vstd::prelude::*;
use rand::Rng;
use crate::color::{hue_near, spec_mix, spec_normalized, Hsv, HUE_FULL, UNIT};

verus! {

/// Period of the effect loop, in milliseconds.
pub const EFFECT_TICK_MILLIS: u32 = 1;

/// Hue distance under which a bounce counts as arrived (two degrees).
pub const BOUNCE_HUE_TOLERANCE: u32 = 2000;

/// Milliseconds from `since` to `now`; zero if `now` lies before `since`.
pub open spec fn elapsed(now: u64, since: u64) -> int {
    if now >= since { now - since } else { 0 }
}

fn elapsed_millis(now: u64, since: u64) -> (r: u64)
    ensures
        r == elapsed(now, since),
{
    if now >= since { now - since } else { 0 }
}

/// The kind of an LED effect, with its animation state.
#[derive(Debug)]
pub enum LedEffectKind {
    Off,
    Static { hsv: Hsv },
    /// Moves the value from `initial_hsv.value` to `peak` and back; each half
    /// takes `time_to_peak` milliseconds along a quadratic ease.
    Breathing { initial_hsv: Hsv, time_to_peak: u32, peak: u32, inhaling: bool, last_update: u64 },
    /// Turns the hue by `step` every tick.
    Rainbow { saturation: u32, value: u32, step: u32 },
    /// Toggles between `hsv` and dark every `interval / 2` milliseconds.
    Blink { hsv: Hsv, interval: u64, last_blink: u64 },
    /// Every `interval` milliseconds draws a value uniformly from
    /// `[sample_low, sample_high]` and clamps it into `[min_value, max_value]`.
    Candle {
        hue: u32,
        saturation: u32,
        min_value: u32,
        max_value: u32,
        sample_low: i64,
        sample_high: i64,
        interval: u64,
        last_change: u64,
    },
    /// Mixes the current colour toward `colors[next_color_index]` by
    /// `progress` (which grows by `step` per tick); on arrival moves on to the
    /// next colour, wrapping round.
    Bounce { colors: Vec<Hsv>, step: u32, progress: u32, next_color_index: usize },
}

/// The value of a breathing effect `e` milliseconds after its last reversal:
/// a quadratic ease over `t` milliseconds from `initial` toward `peak`
/// (inhaling) or from `peak` back toward `initial` (exhaling).
pub open spec fn breathing_level(initial: int, peak: int, e: int, t: int, inhaling: bool) -> int {
    let d = if peak >= initial { peak - initial } else { initial - peak };
    let q = if e >= t { d } else { d * e * e / (t * t) };
    if inhaling {
        if peak >= initial { initial + q } else { initial - q }
    } else {
        if peak >= initial { peak - q } else { peak + q }
    }
}

/// The next colour of a bounce whose target sits at `index` of `colors`.
pub open spec fn bounce_next_index(index: int, len: int) -> int {
    if index + 1 >= len { 0 } else { index + 1 }
}

/// `v` clamped into `[lo, hi]`.
pub open spec fn clamp(v: int, lo: int, hi: int) -> int {
    if v < lo { lo } else if v > hi { hi } else { v }
}

/// One tick of an effect: the next animation state and the next colour, from
/// the current colour, the current time and (for a candle) a drawn sample.
pub open spec fn spec_advance(kind: LedEffectKind, current: Hsv, now: u64, sample: i64) -> (LedEffectKind, Hsv) {
    match kind {
        LedEffectKind::Off => (kind, Hsv { hue: 0, saturation: 0, value: 0 }),
        LedEffectKind::Static { hsv } => (kind, hsv),
        LedEffectKind::Breathing { initial_hsv, time_to_peak, peak, inhaling, last_update } => {
            let initial = initial_hsv.value as int;
            let v = breathing_level(initial, peak as int, elapsed(now, last_update), time_to_peak as int, inhaling);
            let (value, next_inhaling, next_update) = if inhaling && v >= peak {
                (peak as int, false, now)
            } else if !inhaling && v <= initial {
                (initial, true, now)
            } else {
                (v, inhaling, last_update)
            };
            (
                LedEffectKind::Breathing { initial_hsv, time_to_peak, peak, inhaling: next_inhaling, last_update: next_update },
                Hsv { hue: initial_hsv.hue, saturation: initial_hsv.saturation, value: value as u32 },
            )
        },
        LedEffectKind::Rainbow { step, .. } => (
            kind,
            Hsv { hue: ((current.hue + step) % (HUE_FULL as int)) as u32, ..current },
        ),
        LedEffectKind::Blink { hsv, interval, last_blink } => {
            if elapsed(now, last_blink) > interval / 2 {
                (
                    LedEffectKind::Blink { hsv, interval, last_blink: now },
                    if current.value == 0 { hsv } else { Hsv { hue: 0, saturation: 0, value: 0 } },
                )
            } else {
                (kind, current)
            }
        },
        LedEffectKind::Candle { hue, saturation, min_value, max_value, sample_low, sample_high, interval, last_change } => {
            if elapsed(now, last_change) > interval {
                (
                    LedEffectKind::Candle { hue, saturation, min_value, max_value, sample_low, sample_high, interval, last_change: now },
                    Hsv { hue, saturation, value: clamp(sample as int, min_value as int, max_value as int) as u32 },
                )
            } else {
                (kind, current)
            }
        },
        LedEffectKind::Bounce { colors, step, progress, next_color_index } => {
            let target = colors@[next_color_index as int];
            let mixed = spec_mix(spec_normalized(current), spec_normalized(target), progress as int);
            if hue_near(mixed, target, BOUNCE_HUE_TOLERANCE as int) {
                (
                    LedEffectKind::Bounce {
                        colors,
                        step,
                        progress: 0,
                        next_color_index: bounce_next_index(next_color_index as int, colors@.len() as int) as usize,
                    },
                    mixed,
                )
            } else {
                (
                    LedEffectKind::Bounce { colors, step, progress: capped_progress(progress + step) as u32, next_color_index },
                    mixed,
                )
            }
        },
    }
}

/// Progress of a bounce after a step, capped at twice the full scale (any
/// progress from the full scale on mixes all the way).
pub open spec fn capped_progress(p: int) -> int {
    if p > 2 * UNIT { 2 * UNIT as int } else { p }
}

/// The colour an effect shows as soon as it is set.
pub open spec fn spec_initial_hsv(kind: LedEffectKind) -> Hsv {
    match kind {
        LedEffectKind::Off => Hsv { hue: 0, saturation: 0, value: 0 },
        LedEffectKind::Static { hsv } => hsv,
        LedEffectKind::Blink { hsv, .. } => hsv,
        LedEffectKind::Breathing { initial_hsv, .. } => initial_hsv,
        LedEffectKind::Rainbow { saturation, value, .. } => Hsv { hue: 0, saturation, value },
        LedEffectKind::Candle { hue, saturation, min_value, .. } => Hsv { hue, saturation, value: min_value },
        LedEffectKind::Bounce { colors, .. } => colors@[0],
    }
}

/// Relies on rand's `Rng::gen_range` over an inclusive integer range with the
/// thread-local generator: the sample lies within the bounds. It panics on an
/// empty range, which `requires` leaves out.
#[verifier::external_body]
fn sample_between(low: i64, high: i64) -> (r: i64)
    requires
        low <= high,
    ensures
        low <= r <= high,
{
    rand::thread_rng().gen_range(low..=high)
}

proof fn lemma_ease_le(d: int, e: int, t: int)
    requires
        0 <= d,
        0 <= e < t,
    ensures
        0 <= d * e * e / (t * t) <= d,
{
    assert(e * e <= t * t) by (nonlinear_arith)
        requires 0 <= e < t;
    assert(d * (e * e) <= d * (t * t)) by (nonlinear_arith)
        requires 0 <= d, e * e <= t * t;
    assert(0 <= d * (e * e)) by (nonlinear_arith)
        requires 0 <= d, 0 <= e;
    assert(t * t > 0) by (nonlinear_arith)
        requires 0 <= e < t;
    assert(d * (e * e) / (t * t) <= d * (t * t) / (t * t)) by (nonlinear_arith)
        requires d * (e * e) <= d * (t * t), t * t > 0;
    assert(d * (t * t) / (t * t) == d) by (nonlinear_arith)
        requires t * t > 0;
    assert(d * e * e == d * (e * e)) by (nonlinear_arith);
}

/// Whether every colour of a palette is within range.
fn all_colors_well_formed(colors: &Vec<Hsv>) -> (r: bool)
    ensures
        r == forall|j: int| 0 <= j < colors@.len() ==> (#[trigger] colors@[j]).wf(),
{
    let mut i: usize = 0;
    while i < colors.len()
        invariant
            i <= colors@.len(),
            forall|j: int| 0 <= j < i ==> (#[trigger] colors@[j]).wf(),
        decreases colors@.len() - i,
    {
        if !colors[i].is_well_formed() {
            return false;
        }
        i = i + 1;
    }
    true
}

/// `d * e² / t²` for `e < t`.
fn ease(d: u32, e: u64, t: u32) -> (q: u32)
    requires
        e < t,
    ensures
        q == d * e * e / (t * t),
        q <= d,
{
    proof {
        lemma_ease_le(d as int, e as int, t as int);
        assert(e * e < 0x1_0000_0000_0000_0000) by (nonlinear_arith)
            requires e < t, t < 0x1_0000_0000;
        assert(d * e * e < 0x1_0000_0000_0000_0000 * 0x1_0000_0000) by (nonlinear_arith)
            requires e * e < 0x1_0000_0000_0000_0000, d < 0x1_0000_0000;
        assert(t * t < 0x1_0000_0000_0000_0000) by (nonlinear_arith)
            requires t < 0x1_0000_0000;
        assert(t * t > 0) by (nonlinear_arith)
            requires 0 <= e < t;
        assert(d * e < 0x1_0000_0000 * 0x1_0000_0000) by (nonlinear_arith)
            requires e < 0x1_0000_0000, d < 0x1_0000_0000;
    }
    let de: u128 = d as u128 * e as u128;
    let num: u128 = de * e as u128;
    let den: u128 = t as u128 * t as u128;
    (num / den) as u32
}

/// The kind and colour after `n` ticks at time `now` with sample zero (for
/// kinds that ignore time and samples, such as a bounce).
pub open spec fn ticks_after(kind: LedEffectKind, current: Hsv, now: u64, n: nat) -> (LedEffectKind, Hsv)
    decreases n,
{
    if n == 0 {
        (kind, current)
    } else {
        let (k, c) = spec_advance(kind, current, now, 0);
        ticks_after(k, c, now, (n - 1) as nat)
    }
}

/// Most ticks a bounce at `progress` with step `step` needs to arrive: one
/// once the progress has reached the full scale, else the ticks to get there,
/// rounded up, plus one.
pub open spec fn bounce_tick_bound(progress: int, step: int) -> int {
    if progress >= UNIT {
        1
    } else {
        (UNIT - progress + step - 1) / step + 1
    }
}

/// Every kind but the candle advances as a function of its state, the current
/// colour and the time alone: the drawn sample plays no part.
pub proof fn lemma_advance_ignores_sample(kind: LedEffectKind, current: Hsv, now: u64, s1: i64, s2: i64)
    requires
        !(kind is Candle),
    ensures
        spec_advance(kind, current, now, s1) == spec_advance(kind, current, now, s2),
{
}

/// A candle keeps its value within `[min_value, max_value]` (inside its
/// sampling range, which variability only widens): from a colour in that
/// range, a tick leads to a colour in that range whatever sample was drawn
/// from the sampling range.
pub proof fn lemma_candle_within_range(kind: LedEffectKind, current: Hsv, now: u64, sample: i64)
    requires
        kind is Candle,
        kind.wf(),
        kind.sample_fits(sample),
        kind->Candle_min_value <= current.value <= kind->Candle_max_value,
    ensures
        kind->Candle_sample_low <= kind->Candle_min_value || kind->Candle_sample_low <= sample,
        ({
            let (next, out) = spec_advance(kind, current, now, sample);
            &&& next is Candle
            &&& next->Candle_min_value == kind->Candle_min_value
            &&& next->Candle_max_value == kind->Candle_max_value
            &&& kind->Candle_min_value <= out.value <= kind->Candle_max_value
        }),
{
}

/// A breathing effect whose peak is not below its initial value never leaves
/// `[initial, peak]`, and its direction flips exactly when the value reaches
/// the bound it was heading for; the timer restarts at that tick.
pub proof fn lemma_breathing_within_bounds(kind: LedEffectKind, current: Hsv, now: u64, sample: i64)
    requires
        kind is Breathing,
        kind.wf(),
        kind->Breathing_peak >= kind->Breathing_initial_hsv.value,
    ensures
        ({
            let (next, out) = spec_advance(kind, current, now, sample);
            let initial = kind->Breathing_initial_hsv.value;
            let peak = kind->Breathing_peak;
            let inhaling = kind->Breathing_inhaling;
            &&& next is Breathing
            &&& initial <= out.value <= peak
            &&& (next->Breathing_inhaling != inhaling) == (out.value == if inhaling { peak } else { initial })
            &&& next->Breathing_last_update == if next->Breathing_inhaling != inhaling {
                now
            } else {
                kind->Breathing_last_update
            }
        }),
{
    let initial = kind->Breathing_initial_hsv.value;
    let peak = kind->Breathing_peak;
    let t = kind->Breathing_time_to_peak;
    let e = elapsed(now, kind->Breathing_last_update);
    if e < t {
        lemma_ease_le((peak - initial) as int, e, t as int);
    }
}

/// A blink toggles once more than half its interval has passed since its last
/// toggle: to its colour from dark, to dark from anything else, restarting
/// its timer; before that it keeps the current colour and state.
pub proof fn lemma_blink_alternates(kind: LedEffectKind, current: Hsv, now: u64, sample: i64)
    requires
        kind is Blink,
    ensures
        ({
            let (next, out) = spec_advance(kind, current, now, sample);
            let due = elapsed(now, kind->Blink_last_blink) > kind->Blink_interval / 2;
            &&& due ==> next->Blink_last_blink == now
            &&& due && current.value == 0 ==> out == kind->Blink_hsv
            &&& due && current.value != 0 ==> out == Hsv::off_spec()
            &&& !due ==> next == kind && out == current
        }),
{
}

/// The cap on a bounce's progress changes no colour: every progress from the
/// full scale on mixes the same way (all the way to the target).
pub proof fn lemma_progress_cap_unseen(current: Hsv, target: Hsv, p1: int, p2: int)
    requires
        p1 >= UNIT,
        p2 >= UNIT,
    ensures
        spec_mix(spec_normalized(current), spec_normalized(target), p1)
            == spec_mix(spec_normalized(current), spec_normalized(target), p2),
        capped_progress(p1) >= UNIT,
{
}

/// Distance of a bounce's progress from the full scale.
pub open spec fn bounce_distance(progress: int) -> int {
    if progress >= UNIT { 0 } else { UNIT - progress }
}

/// A bounce with a positive step reaches its target colour (within the hue
/// tolerance) in at most `bounce_tick_bound` ticks, about the full scale over
/// the step; it then restarts its progress and heads for the next colour,
/// wrapping from the last colour to the first.
pub proof fn lemma_bounce_reaches_target(kind: LedEffectKind, current: Hsv, now: u64) -> (n: nat)
    requires
        kind is Bounce,
        kind.wf(),
        kind->Bounce_step > 0,
    ensures
        1 <= n <= bounce_tick_bound(kind->Bounce_progress as int, kind->Bounce_step as int),
        ({
            let (next, out) = ticks_after(kind, current, now, n);
            let index = kind->Bounce_next_color_index as int;
            let len = kind->Bounce_colors@.len() as int;
            &&& next is Bounce
            &&& next->Bounce_colors == kind->Bounce_colors
            &&& next->Bounce_progress == 0
            &&& next->Bounce_next_color_index == bounce_next_index(index, len)
            &&& (index == len - 1 ==> next->Bounce_next_color_index == 0)
            &&& hue_near(out, kind->Bounce_colors@[index], BOUNCE_HUE_TOLERANCE as int)
        }),
    decreases bounce_distance(kind->Bounce_progress as int),
{
    let colors = kind->Bounce_colors;
    let step = kind->Bounce_step;
    let progress = kind->Bounce_progress;
    let index = kind->Bounce_next_color_index;
    let target = colors@[index as int];
    let mixed = spec_mix(spec_normalized(current), spec_normalized(target), progress as int);
    let (k1, c1) = spec_advance(kind, current, now, 0);
    assert(ticks_after(k1, c1, now, 0) == (k1, c1));
    if progress < UNIT {
        let y = UNIT - progress + step - 1;
        assert(y / (step as int) >= 1) by (nonlinear_arith)
            requires step > 0, y >= step;
    }
    if hue_near(mixed, target, BOUNCE_HUE_TOLERANCE as int) {
        assert(ticks_after(kind, current, now, 1) == (k1, c1));
        assert(k1->Bounce_progress == 0);
        assert(c1 == mixed);
        assert(k1->Bounce_next_color_index == bounce_next_index(index as int, colors@.len() as int));
        1
    } else {
        if progress >= UNIT {
            crate::color::lemma_normalized_wf(current);
            crate::color::lemma_normalized_wf(target);
            crate::color::lemma_full_mix_reaches_target(spec_normalized(current), spec_normalized(target), progress as int);
            assert(mixed.hue as int == (target.hue as int) % (HUE_FULL as int));
            assert(((target.hue as int) % (HUE_FULL as int)) % (HUE_FULL as int) == (target.hue as int) % (HUE_FULL as int));
        }
        assert(progress < UNIT);
        assert(k1.wf());
        assert(k1->Bounce_colors == colors);
        assert(k1->Bounce_next_color_index == index);
        assert(k1->Bounce_progress == capped_progress(progress + step));
        let m = lemma_bounce_reaches_target(k1, c1, now);
        assert(ticks_after(kind, current, now, (m + 1) as nat) == ticks_after(k1, c1, now, m));
        let (next, out) = ticks_after(k1, c1, now, m);
        assert(next->Bounce_next_color_index == bounce_next_index(index as int, colors@.len() as int));
        assert(hue_near(out, colors@[index as int], BOUNCE_HUE_TOLERANCE as int));
        if progress + step < UNIT {
            let x = UNIT - progress - 1;
            assert((x + step) / (step as int) == x / (step as int) + 1) by (nonlinear_arith)
                requires step > 0, x >= 0;
        }
        (m + 1) as nat
    }
}

impl LedEffectKind {
    /// What the arithmetic needs: a bounce has a palette of at least two
    /// colours and heads for one of them, a candle samples from a non-empty
    /// range. Parameter ranges are not part of it (see `spec_out_of_range`).
    pub open spec fn wf(&self) -> bool {
        match *self {
            LedEffectKind::Candle { sample_low, sample_high, .. } => sample_low <= sample_high,
            LedEffectKind::Bounce { colors, next_color_index, .. } => {
                &&& colors@.len() >= 2
                &&& colors@.len() <= usize::MAX
                &&& next_color_index < colors@.len()
            },
            _ => true,
        }
    }

    /// Some parameter lies outside its intended range: a colour component
    /// out of range, a value, peak, saturation or step above the full scale, a
    /// breathing peak under its initial value, a rainbow step above a turn, or
    /// a candle minimum above its maximum. Such an effect is kept all the same.
    pub open spec fn spec_out_of_range(&self) -> bool {
        match *self {
            LedEffectKind::Off => false,
            LedEffectKind::Static { hsv } => !hsv.wf(),
            LedEffectKind::Breathing { initial_hsv, peak, .. } => {
                !initial_hsv.wf() || peak > UNIT || peak < initial_hsv.value
            },
            LedEffectKind::Rainbow { saturation, value, step } => {
                saturation > UNIT || value > UNIT || step > HUE_FULL
            },
            LedEffectKind::Blink { hsv, .. } => !hsv.wf(),
            LedEffectKind::Candle { hue, saturation, min_value, max_value, .. } => {
                hue >= HUE_FULL || saturation > UNIT || max_value > UNIT || min_value > max_value
            },
            LedEffectKind::Bounce { colors, step, .. } => {
                step > UNIT || exists|i: int| 0 <= i < colors@.len() && !(#[trigger] colors@[i]).wf()
            },
        }
    }

    /// The drawn sample fits the range of a candle (any sample fits another kind).
    pub open spec fn sample_fits(&self, sample: i64) -> bool {
        match *self {
            LedEffectKind::Candle { sample_low, sample_high, .. } => sample_low <= sample <= sample_high,
            _ => true,
        }
    }

    /// The same effect; a palette is compared by its colours.
    pub open spec fn same_as(&self, other: LedEffectKind) -> bool {
        match *self {
            LedEffectKind::Bounce { colors, step, progress, next_color_index } => {
                &&& other is Bounce
                &&& other->Bounce_colors@ == colors@
                &&& other->Bounce_step == step
                &&& other->Bounce_progress == progress
                &&& other->Bounce_next_color_index == next_color_index
            },
            _ => *self == other,
        }
    }

    /// Whether the kind is well formed (see `wf`).
    pub fn is_well_formed(&self) -> (r: bool)
        ensures
            r == self.wf(),
    {
        match self {
            LedEffectKind::Candle { sample_low, sample_high, .. } => *sample_low <= *sample_high,
            LedEffectKind::Bounce { colors, next_color_index, .. } => colors.len() >= 2 && *next_color_index < colors.len(),
            _ => true,
        }
    }

    /// Reports every parameter outside its intended range (the effect is kept
    /// all the same: the caller only logs it).
    pub fn has_out_of_range_parameters(&self) -> (r: bool)
        ensures
            r == self.spec_out_of_range(),
    {
        match self {
            LedEffectKind::Off => false,
            LedEffectKind::Static { hsv } => !hsv.is_well_formed(),
            LedEffectKind::Breathing { initial_hsv, peak, .. } => {
                !initial_hsv.is_well_formed() || *peak > UNIT || *peak < initial_hsv.value
            },
            LedEffectKind::Rainbow { saturation, value, step } => {
                *saturation > UNIT || *value > UNIT || *step > HUE_FULL
            },
            LedEffectKind::Blink { hsv, .. } => !hsv.is_well_formed(),
            LedEffectKind::Candle { hue, saturation, min_value, max_value, .. } => {
                *hue >= HUE_FULL || *saturation > UNIT || *max_value > UNIT || *min_value > *max_value
            },
            LedEffectKind::Bounce { colors, step, .. } => *step > UNIT || !all_colors_well_formed(colors),
        }
    }

    /// A breathing effect that starts at `initial_hsv` and reaches `peak`
    /// after `time_to_peak` milliseconds.
    pub fn new_timed_breathing(initial_hsv: Hsv, time_to_peak: u32, peak: u32, now: u64) -> (r: LedEffectKind)
        ensures
            r == (LedEffectKind::Breathing {
                initial_hsv,
                time_to_peak,
                peak,
                inhaling: initial_hsv.value < peak,
                last_update: now,
            }),
    {
        LedEffectKind::Breathing {
            initial_hsv,
            time_to_peak,
            peak,
            inhaling: initial_hsv.value < peak,
            last_update: now,
        }
    }

    /// A rainbow that completes a turn in `time_to_complete` milliseconds: the
    /// step per tick is a full turn times the tick over that time (a full
    /// turn when the time is zero).
    pub fn new_timed_rainbow(saturation: u32, value: u32, time_to_complete: u32) -> (r: LedEffectKind)
        ensures
            r == (LedEffectKind::Rainbow {
                saturation,
                value,
                step: if time_to_complete == 0 {
                    HUE_FULL
                } else {
                    (EFFECT_TICK_MILLIS * HUE_FULL / (time_to_complete as int)) as u32
                },
            }),
    {
        let step = if time_to_complete == 0 {
            HUE_FULL
        } else {
            EFFECT_TICK_MILLIS * HUE_FULL / time_to_complete
        };
        LedEffectKind::Rainbow { saturation, value, step }
    }

    /// A candle flickering between `min_value` and `max_value`; the sampling
    /// range is widened on both sides by `variability` thousandths of the
    /// width, so the bounds come up more often. The interval defaults to one
    /// millisecond.
    pub fn new_candle(
        hue: u32,
        saturation: u32,
        min_value: u32,
        max_value: u32,
        variability: u32,
        interval: Option<u64>,
        now: u64,
    ) -> (r: LedEffectKind)
        requires
            min_value <= max_value,
        ensures
            r == (LedEffectKind::Candle {
                hue,
                saturation,
                min_value,
                max_value,
                sample_low: (min_value - variability * (max_value - min_value) / (UNIT as int)) as i64,
                sample_high: (max_value + variability * (max_value - min_value) / (UNIT as int)) as i64,
                interval: match interval {
                    Some(i) => i,
                    None => 1,
                },
                last_change: now,
            }),
    {
        let width: u64 = (max_value - min_value) as u64;
        proof {
            assert(variability * width <= 0xffff_ffff * 0xffff_ffff) by (nonlinear_arith)
                requires variability <= 0xffff_ffff, width <= 0xffff_ffff;
            assert(variability * width / (UNIT as int) <= variability * width) by (nonlinear_arith)
                requires 0 <= variability * width;
        }
        let widen: u64 = (variability as u64 * width) / (UNIT as u64);
        let interval = match interval {
            Some(i) => i,
            None => 1,
        };
        LedEffectKind::Candle {
            hue,
            saturation,
            min_value,
            max_value,
            sample_low: min_value as i64 - widen as i64,
            sample_high: max_value as i64 + widen as i64,
            interval,
            last_change: now,
        }
    }

    /// A bounce over one colour per hue, all with the same saturation and
    /// value (kept as given, even out of range), heading first for the second
    /// colour.
    pub fn new_bounce(hues: Vec<u32>, saturation: u32, value: u32, step: u32) -> (r: LedEffectKind)
        requires
            hues@.len() >= 2,
        ensures
            r.wf(),
            r is Bounce,
            r->Bounce_colors@.len() == hues@.len(),
            forall|i: int| 0 <= i < hues@.len() ==> r->Bounce_colors@[i] == (Hsv {
                hue: (hues@[i] % HUE_FULL) as u32,
                saturation,
                value,
            }),
            r->Bounce_step == step,
            r->Bounce_progress == 0,
            r->Bounce_next_color_index == 1,
    {
        let mut colors: Vec<Hsv> = Vec::new();
        let mut i: usize = 0;
        while i < hues.len()
            invariant
                i <= hues@.len(),
                colors@.len() == i,
                forall|j: int| 0 <= j < i ==> (#[trigger] colors@[j]) == (Hsv {
                    hue: (hues@[j] % HUE_FULL) as u32,
                    saturation,
                    value,
                }),
            decreases hues@.len() - i,
        {
            colors.push(Hsv { hue: hues[i] % HUE_FULL, saturation, value });
            i = i + 1;
        }
        LedEffectKind::Bounce {
            colors,
            step,
            progress: 0,
            next_color_index: 1,
        }
    }

    /// The colour shown as soon as the effect is set.
    pub fn get_initial_hsv(&self) -> (r: Hsv)
        requires
            *self is Bounce ==> self->Bounce_colors@.len() > 0,
        ensures
            r == spec_initial_hsv(*self),
    {
        match self {
            LedEffectKind::Off => Hsv::off(),
            LedEffectKind::Static { hsv } => *hsv,
            LedEffectKind::Blink { hsv, .. } => *hsv,
            LedEffectKind::Breathing { initial_hsv, .. } => *initial_hsv,
            LedEffectKind::Rainbow { saturation, value, .. } => Hsv { hue: 0, saturation: *saturation, value: *value },
            LedEffectKind::Candle { hue, saturation, min_value, .. } => Hsv { hue: *hue, saturation: *saturation, value: *min_value },
            LedEffectKind::Bounce { colors, .. } => colors[0],
        }
    }

    /// One tick with a given candle sample: the animation state moves on and
    /// the next colour is returned.
    pub fn advance(&mut self, current: Hsv, now: u64, sample: i64) -> (r: Hsv)
        requires
            old(self).wf(),
        ensures
            (*final(self), r) == spec_advance(*old(self), current, now, sample),
            final(self).wf(),
    {
        match self {
            LedEffectKind::Off => Hsv::off(),
            LedEffectKind::Static { hsv } => *hsv,
            LedEffectKind::Breathing { initial_hsv, time_to_peak, peak, inhaling, last_update } => {
                let initial = initial_hsv.value;
                let e = elapsed_millis(now, *last_update);
                let d: u32 = if *peak >= initial { *peak - initial } else { initial - *peak };
                let q: u32 = if e >= *time_to_peak as u64 { d } else { ease(d, e, *time_to_peak) };
                let v: u32 = if *inhaling {
                    if *peak >= initial { initial + q } else { initial - q }
                } else {
                    if *peak >= initial { *peak - q } else { *peak + q }
                };
                let value = if *inhaling && v >= *peak {
                    *last_update = now;
                    *inhaling = false;
                    *peak
                } else if !*inhaling && v <= initial {
                    *last_update = now;
                    *inhaling = true;
                    initial
                } else {
                    v
                };
                Hsv { hue: initial_hsv.hue, saturation: initial_hsv.saturation, value }
            },
            LedEffectKind::Rainbow { step, .. } => current.shift_hue(*step),
            LedEffectKind::Blink { hsv, interval, last_blink } => {
                if elapsed_millis(now, *last_blink) > *interval / 2 {
                    *last_blink = now;
                    if current.value == 0 { *hsv } else { Hsv::off() }
                } else {
                    current
                }
            },
            LedEffectKind::Candle { hue, saturation, min_value, max_value, interval, last_change, .. } => {
                if elapsed_millis(now, *last_change) > *interval {
                    *last_change = now;
                    let value: u32 = if sample < *min_value as i64 {
                        *min_value
                    } else if sample > *max_value as i64 {
                        *max_value
                    } else {
                        sample as u32
                    };
                    Hsv { hue: *hue, saturation: *saturation, value }
                } else {
                    current
                }
            },
            LedEffectKind::Bounce { colors, step, progress, next_color_index } => {
                let target = colors[*next_color_index];
                let mixed = current.mix(target, *progress);
                if mixed.hue_close_to(target, BOUNCE_HUE_TOLERANCE) {
                    *progress = 0;
                    *next_color_index = if *next_color_index >= colors.len() - 1 { 0 } else { *next_color_index + 1 };
                } else {
                    let sum: u64 = *progress as u64 + *step as u64;
                    *progress = if sum > 2 * UNIT as u64 { 2 * UNIT } else { sum as u32 };
                }
                mixed
            },
        }
    }

    /// One tick: draws a candle sample when one is due, then advances.
    pub fn get_updated_hsv(&mut self, current_hsv: Hsv, now: u64) -> (r: Hsv)
        requires
            old(self).wf(),
        ensures
            final(self).wf(),
            exists|sample: i64| #[trigger] old(self).sample_fits(sample)
                && (*final(self), r) == spec_advance(*old(self), current_hsv, now, sample),
            !(*old(self) is Candle) ==> (*final(self), r) == spec_advance(*old(self), current_hsv, now, 0),
    {
        let sample: i64 = match self {
            LedEffectKind::Candle { sample_low, sample_high, interval, last_change, .. } => {
                if elapsed_millis(now, *last_change) > *interval {
                    sample_between(*sample_low, *sample_high)
                } else {
                    *sample_low
                }
            },
            _ => 0,
        };
        let ghost before = *self;
        assert(before.sample_fits(sample));
        proof {
            if !(before is Candle) {
                lemma_advance_ignores_sample(before, current_hsv, now, sample, 0);
            }
        }
        self.advance(current_hsv, now, sample)
    }
}

impl Clone for LedEffectKind {
    fn clone(&self) -> (r: Self)
        ensures
            r.same_as(*self),
            self.wf() ==> r.wf(),
    {
        match self {
            LedEffectKind::Off => LedEffectKind::Off,
            LedEffectKind::Static { hsv } => LedEffectKind::Static { hsv: *hsv },
            LedEffectKind::Breathing { initial_hsv, time_to_peak, peak, inhaling, last_update } => LedEffectKind::Breathing {
                initial_hsv: *initial_hsv,
                time_to_peak: *time_to_peak,
                peak: *peak,
                inhaling: *inhaling,
                last_update: *last_update,
            },
            LedEffectKind::Rainbow { saturation, value, step } => LedEffectKind::Rainbow {
                saturation: *saturation,
                value: *value,
                step: *step,
            },
            LedEffectKind::Blink { hsv, interval, last_blink } => LedEffectKind::Blink {
                hsv: *hsv,
                interval: *interval,
                last_blink: *last_blink,
            },
            LedEffectKind::Candle { hue, saturation, min_value, max_value, sample_low, sample_high, interval, last_change } => LedEffectKind::Candle {
                hue: *hue,
                saturation: *saturation,
                min_value: *min_value,
                max_value: *max_value,
                sample_low: *sample_low,
                sample_high: *sample_high,
                interval: *interval,
                last_change: *last_change,
            },
            LedEffectKind::Bounce { colors, step, progress, next_color_index } => {
                let copied = colors.clone();
                assert(copied@ =~= colors@);
                LedEffectKind::Bounce {
                    colors: copied,
                    step: *step,
                    progress: *progress,
                    next_color_index: *next_color_index,
                }
            },
        }
    }
}

/// An LED effect: its kind, when it started and for how long it lasts.
#[derive(Debug)]
pub struct LedEffect {
    pub kind: LedEffectKind,
    /// Milliseconds on the caller's clock.
    pub start: u64,
    /// Milliseconds; `None` for an effect that never ends.
    pub duration: Option<u64>,
}

impl LedEffect {
    pub open spec fn wf(&self) -> bool {
        self.kind.wf()
    }

    /// The effect carries a duration that has fully run out at `now`.
    pub open spec fn expired_at(&self, now: u64) -> bool {
        match self.duration {
            Some(d) => elapsed(now, self.start) >= d,
            None => false,
        }
    }

    /// The same effect; a palette is compared by its colours.
    pub open spec fn same_as(&self, other: LedEffect) -> bool {
        &&& self.kind.same_as(other.kind)
        &&& self.start == other.start
        &&& self.duration == other.duration
    }

    /// An effect of `kind` started at `now` that lasts `duration` milliseconds.
    pub open spec fn new_expiring_spec(kind: LedEffectKind, duration: u64, now: u64) -> LedEffect {
        LedEffect { kind, start: now, duration: Some(duration) }
    }

    pub fn new_expiring(kind: LedEffectKind, duration: u64, now: u64) -> (r: LedEffect)
        ensures
            r == LedEffect::new_expiring_spec(kind, duration, now),
    {
        LedEffect { kind, start: now, duration: Some(duration) }
    }

    pub fn new(kind: LedEffectKind, now: u64) -> (r: LedEffect)
        ensures
            r == (LedEffect { kind, start: now, duration: None }),
    {
        LedEffect { kind, start: now, duration: None }
    }

    /// A lasting Off effect started at `now`.
    pub open spec fn off_spec(now: u64) -> LedEffect {
        LedEffect { kind: LedEffectKind::Off, start: now, duration: None }
    }

    pub fn off(now: u64) -> (r: LedEffect)
        ensures
            r == LedEffect::off_spec(now),
            r.wf(),
    {
        LedEffect { kind: LedEffectKind::Off, start: now, duration: None }
    }

    /// An expiring effect when a duration is given, otherwise a lasting one.
    pub fn from(kind: LedEffectKind, duration_millis: Option<i32>, now: u64) -> (r: LedEffect)
        requires
            duration_millis matches Some(d) ==> d >= 0,
        ensures
            r.kind == kind,
            r.start == now,
            r.duration == match duration_millis {
                Some(d) => Some(d as u64),
                None => None::<u64>,
            },
    {
        match duration_millis {
            Some(millis) => LedEffect::new_expiring(kind, millis as u64, now),
            None => LedEffect::new(kind, now),
        }
    }

    pub fn is_off(&self) -> (r: bool)
        ensures
            r == (self.kind is Off),
    {
        match self.kind {
            LedEffectKind::Off => true,
            _ => false,
        }
    }

    /// The duration has fully run out at `now`.
    pub fn has_expired(&self, now: u64) -> (r: bool)
        ensures
            r == self.expired_at(now),
    {
        match self.duration {
            Some(d) => elapsed_millis(now, self.start) >= d,
            None => false,
        }
    }
}

impl Clone for LedEffect {
    fn clone(&self) -> (r: Self)
        ensures
            r.same_as(*self),
            self.wf() ==> r.wf(),
    {
        LedEffect { kind: self.kind.clone(), start: self.start, duration: self.duration }
    }
}

} // verus!
