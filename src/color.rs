//! Fixed-point HSV colours.
//!
//! Hue is kept in thousandths of a degree, saturation and value in thousandths
//! of the full scale, so every effect computation is exact integer arithmetic.

use vstd::prelude::*;

verus! {

/// One full turn of the hue circle, in thousandths of a degree.
pub const HUE_FULL: u32 = 360000;

/// Half a turn of the hue circle, in thousandths of a degree.
pub const HUE_HALF: u32 = 180000;

/// Full scale of a normalised component (saturation, value, strength).
pub const UNIT: u32 = 1000;

/// A colour in hue / saturation / value form.
#[derive(Clone, Copy, Debug, PartialEq, Eq, Structural)]
pub struct Hsv {
    /// Thousandths of a degree, in `[0, HUE_FULL)`.
    pub hue: u32,
    /// Thousandths, in `[0, UNIT]`.
    pub saturation: u32,
    /// Thousandths, in `[0, UNIT]`.
    pub value: u32,
}

/// Smallest of two integers.
pub open spec fn min_int(a: int, b: int) -> int {
    if a <= b { a } else { b }
}

/// Distance between two hues going the short way round the circle.
pub open spec fn hue_distance(a: int, b: int) -> int {
    let d = if a >= b { a - b } else { b - a };
    min_int(d, HUE_FULL - d)
}

/// Signed offset that leads from hue `from` to hue `to` the short way round,
/// in `(-HUE_HALF, HUE_HALF]`.
pub open spec fn hue_offset(from: int, to: int) -> int {
    let d = to - from;
    if d > HUE_HALF {
        d - HUE_FULL
    } else if d <= -(HUE_HALF as int) {
        d + HUE_FULL
    } else {
        d
    }
}

/// The colour with its hue taken modulo a turn and its other components
/// capped at the full scale.
pub open spec fn spec_normalized(c: Hsv) -> Hsv {
    Hsv {
        hue: (c.hue % HUE_FULL) as u32,
        saturation: min_int(c.saturation as int, UNIT as int) as u32,
        value: min_int(c.value as int, UNIT as int) as u32,
    }
}

/// The hues of `a` and `b`, taken modulo a turn, lie within `tolerance` of
/// each other.
pub open spec fn hue_near(a: Hsv, b: Hsv, tolerance: int) -> bool {
    hue_distance((a.hue as int) % (HUE_FULL as int), (b.hue as int) % (HUE_FULL as int)) < tolerance
}

/// `a` moved toward `b` by `f` thousandths of the way (rounded toward `a`).
pub open spec fn toward(a: int, b: int, f: int) -> int {
    if b >= a {
        a + (b - a) * f / (UNIT as int)
    } else {
        a - (a - b) * f / (UNIT as int)
    }
}

/// Hue `from` moved toward hue `to` by `f` thousandths of the short way.
pub open spec fn hue_toward(from: int, to: int, f: int) -> int {
    let off = hue_offset(from, to);
    if off >= 0 {
        (from + off * f / (UNIT as int)) % (HUE_FULL as int)
    } else {
        (from + HUE_FULL - (-off) * f / (UNIT as int)) % (HUE_FULL as int)
    }
}

/// The factor of a mix, capped at the full scale.
pub open spec fn capped_factor(factor: int) -> int {
    if factor > UNIT { UNIT as int } else { factor }
}

/// Linear interpolation of `c` toward `t` by `factor` thousandths
/// (hue along the shorter arc; a factor above the full scale counts as full).
pub open spec fn spec_mix(c: Hsv, t: Hsv, factor: int) -> Hsv {
    let f = capped_factor(factor);
    Hsv {
        hue: hue_toward(c.hue as int, t.hue as int, f) as u32,
        saturation: toward(c.saturation as int, t.saturation as int, f) as u32,
        value: toward(c.value as int, t.value as int, f) as u32,
    }
}

impl Hsv {
    /// Components within their ranges.
    pub open spec fn wf(self) -> bool {
        &&& self.hue < HUE_FULL
        &&& self.saturation <= UNIT
        &&& self.value <= UNIT
    }

    /// Whether the components are within their ranges.
    pub fn is_well_formed(&self) -> (r: bool)
        ensures
            r == self.wf(),
    {
        self.hue < HUE_FULL && self.saturation <= UNIT && self.value <= UNIT
    }

    /// Builds a colour; the hue is taken modulo a full turn and the other two
    /// components are capped at the full scale.
    pub fn new(hue: u32, saturation: u32, value: u32) -> (r: Hsv)
        ensures
            r.wf(),
            r.hue == hue % HUE_FULL,
            r.saturation == min_int(saturation as int, UNIT as int),
            r.value == min_int(value as int, UNIT as int),
    {
        Hsv {
            hue: hue % HUE_FULL,
            saturation: if saturation > UNIT { UNIT } else { saturation },
            value: if value > UNIT { UNIT } else { value },
        }
    }

    /// The colour of a dark LED.
    pub open spec fn off_spec() -> Hsv {
        Hsv { hue: 0, saturation: 0, value: 0 }
    }

    /// The colour of a dark LED.
    pub fn off() -> (r: Hsv)
        ensures
            r == Hsv::off_spec(),
            r.wf(),
    {
        Hsv { hue: 0, saturation: 0, value: 0 }
    }

    /// Turns the hue by `amount`, wrapping round the circle.
    pub fn shift_hue(self, amount: u32) -> (r: Hsv)
        ensures
            r.hue < HUE_FULL,
            r.hue == (self.hue + amount) % (HUE_FULL as int),
            r.saturation == self.saturation,
            r.value == self.value,
    {
        let sum: u64 = self.hue as u64 + amount as u64;
        Hsv { hue: (sum % HUE_FULL as u64) as u32, saturation: self.saturation, value: self.value }
    }

    /// The colour with its hue taken modulo a turn and its other components
    /// capped at the full scale.
    pub fn normalized(self) -> (r: Hsv)
        ensures
            r == spec_normalized(self),
            r.wf(),
    {
        Hsv::new(self.hue, self.saturation, self.value)
    }

    /// Interpolates toward `target` by `factor` thousandths of the way; both
    /// colours are normalised first.
    pub fn mix(self, target: Hsv, factor: u32) -> (r: Hsv)
        ensures
            r == spec_mix(spec_normalized(self), spec_normalized(target), factor as int),
            r.wf(),
    {
        self.normalized().mix_in_range(target.normalized(), factor)
    }

    fn mix_in_range(self, target: Hsv, factor: u32) -> (r: Hsv)
        requires
            self.wf(),
            target.wf(),
        ensures
            r == spec_mix(self, target, factor as int),
            r.wf(),
    {
        let f: u32 = if factor > UNIT { UNIT } else { factor };
        let hue: u32 = if target.hue >= self.hue {
            let d: u32 = target.hue - self.hue;
            if d > HUE_HALF {
                let back: u32 = HUE_FULL - d;
                (self.hue + HUE_FULL - scale(back, f)) % HUE_FULL
            } else {
                (self.hue + scale(d, f)) % HUE_FULL
            }
        } else {
            let d: u32 = self.hue - target.hue;
            if d >= HUE_HALF {
                let fwd: u32 = HUE_FULL - d;
                (self.hue + scale(fwd, f)) % HUE_FULL
            } else {
                (self.hue + HUE_FULL - scale(d, f)) % HUE_FULL
            }
        };
        let saturation = mix_component(self.saturation, target.saturation, f);
        let value = mix_component(self.value, target.value, f);
        Hsv { hue, saturation, value }
    }

    /// Whether the hue lies within `tolerance` of the hue of `other` (both
    /// taken modulo a turn).
    pub fn hue_close_to(self, other: Hsv, tolerance: u32) -> (r: bool)
        ensures
            r == hue_near(self, other, tolerance as int),
    {
        let a: u32 = self.hue % HUE_FULL;
        let b: u32 = other.hue % HUE_FULL;
        let d: u32 = if a >= b { a - b } else { b - a };
        let wrapped: u32 = HUE_FULL - d;
        let dist: u32 = if d <= wrapped { d } else { wrapped };
        dist < tolerance
    }
}

/// `x * f / UNIT` stays within `x` when `f` is at most the full scale.
proof fn lemma_scaled_le(x: int, f: int)
    requires
        0 <= x,
        0 <= f <= UNIT,
    ensures
        0 <= x * f / (UNIT as int) <= x,
{
    assert(x * f <= x * (UNIT as int)) by (nonlinear_arith)
        requires 0 <= x, f <= UNIT;
    assert(0 <= x * f) by (nonlinear_arith)
        requires 0 <= x, 0 <= f;
    assert(x * f / (UNIT as int) <= x * (UNIT as int) / (UNIT as int)) by (nonlinear_arith)
        requires x * f <= x * (UNIT as int);
    assert(x * (UNIT as int) / (UNIT as int) == x) by (nonlinear_arith);
}

/// `x * f / UNIT` for a factor within the full scale.
fn scale(x: u32, f: u32) -> (r: u32)
    requires
        x <= HUE_FULL,
        f <= UNIT,
    ensures
        r == x * f / (UNIT as int),
        r <= x,
{
    proof {
        lemma_scaled_le(x as int, f as int);
        assert(x * f <= HUE_FULL * UNIT) by (nonlinear_arith)
            requires x <= HUE_FULL, f <= UNIT;
    }
    x * f / UNIT
}

fn mix_component(a: u32, b: u32, f: u32) -> (r: u32)
    requires
        a <= UNIT,
        b <= UNIT,
        f <= UNIT,
    ensures
        r == toward(a as int, b as int, f as int),
        r <= UNIT,
{
    if b >= a {
        proof {
            lemma_scaled_le((b - a) as int, f as int);
        }
        a + (b - a) * f / UNIT
    } else {
        proof {
            lemma_scaled_le((a - b) as int, f as int);
        }
        a - (a - b) * f / UNIT
    }
}

/// Mixing by the full factor lands exactly on the target.
pub proof fn lemma_full_mix_reaches_target(c: Hsv, t: Hsv, factor: int)
    requires
        c.wf(),
        t.wf(),
        factor >= UNIT,
    ensures
        spec_mix(c, t, factor) == t,
{
    let off = hue_offset(c.hue as int, t.hue as int);
    assert(off * (UNIT as int) / (UNIT as int) == off) by (nonlinear_arith);
    assert((-off) * (UNIT as int) / (UNIT as int) == -off) by (nonlinear_arith);
    assert((t.saturation - c.saturation) * (UNIT as int) / (UNIT as int) == t.saturation - c.saturation) by (nonlinear_arith);
    assert((c.saturation - t.saturation) * (UNIT as int) / (UNIT as int) == c.saturation - t.saturation) by (nonlinear_arith);
    assert((t.value - c.value) * (UNIT as int) / (UNIT as int) == t.value - c.value) by (nonlinear_arith);
    assert((c.value - t.value) * (UNIT as int) / (UNIT as int) == c.value - t.value) by (nonlinear_arith);
}

/// A normalised colour lies within range.
pub proof fn lemma_normalized_wf(c: Hsv)
    ensures
        spec_normalized(c).wf(),
{
}

} // verus!
