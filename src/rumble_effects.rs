//! Rumble effects: the kinds of vibration and how each advances its strength.

use vstd::prelude::*;
use crate::color::UNIT;
use crate::led_effects::elapsed;

verus! {

/// The kind of a rumble effect, with its animation state. Strengths are
/// thousandths of the full scale.
#[derive(Clone, Copy, Debug, PartialEq, Eq, Structural)]
pub enum RumbleEffectKind {
    Off,
    Static { strength: u32 },
    /// Moves the strength by `step * peak` per tick between
    /// `initial_strength` and `peak`.
    Breathing { initial_strength: u32, step: u32, peak: u32, inhaling: bool },
    /// Toggles between `strength` and still every `interval / 2` milliseconds.
    Blink { strength: u32, interval: u64, last_blink: u64 },
}

/// One tick of a rumble effect: the next state and the next strength.
pub open spec fn spec_rumble_advance(kind: RumbleEffectKind, current: u32, now: u64) -> (RumbleEffectKind, u32) {
    match kind {
        RumbleEffectKind::Off => (kind, 0),
        RumbleEffectKind::Static { strength } => (kind, strength),
        RumbleEffectKind::Breathing { initial_strength, step, peak, inhaling } => {
            let delta = step * peak / (UNIT as int);
            let moved = if inhaling {
                current + delta
            } else if current >= delta {
                current - delta
            } else {
                0
            };
            if moved >= peak {
                (RumbleEffectKind::Breathing { initial_strength, step, peak, inhaling: false }, peak)
            } else if moved <= initial_strength {
                (RumbleEffectKind::Breathing { initial_strength, step, peak, inhaling: true }, initial_strength)
            } else {
                (kind, moved as u32)
            }
        },
        RumbleEffectKind::Blink { strength, interval, last_blink } => {
            if elapsed(now, last_blink) > interval / 2 {
                (RumbleEffectKind::Blink { strength, interval, last_blink: now }, if current == 0 { strength } else { 0 })
            } else {
                (kind, current)
            }
        },
    }
}

/// The strength a rumble effect has as soon as it is set.
pub open spec fn spec_initial_rumble(kind: RumbleEffectKind) -> u32 {
    match kind {
        RumbleEffectKind::Off => 0,
        RumbleEffectKind::Static { strength } => strength,
        RumbleEffectKind::Breathing { initial_strength, .. } => initial_strength,
        RumbleEffectKind::Blink { strength, .. } => strength,
    }
}

impl RumbleEffectKind {
    /// Some parameter lies outside its intended range: a strength, initial
    /// strength, step or peak above the full scale, or a breathing peak under
    /// its initial strength. Such an effect is kept all the same.
    pub open spec fn spec_out_of_range(&self) -> bool {
        match *self {
            RumbleEffectKind::Off => false,
            RumbleEffectKind::Static { strength } => strength > UNIT,
            RumbleEffectKind::Breathing { initial_strength, step, peak, .. } => {
                initial_strength > UNIT || step > UNIT || peak > UNIT || peak < initial_strength
            },
            RumbleEffectKind::Blink { strength, .. } => strength > UNIT,
        }
    }

    /// Reports every parameter outside its intended range (the effect is kept
    /// all the same: the caller only logs it).
    pub fn has_out_of_range_parameters(&self) -> (r: bool)
        ensures
            r == self.spec_out_of_range(),
    {
        match *self {
            RumbleEffectKind::Off => false,
            RumbleEffectKind::Static { strength } => strength > UNIT,
            RumbleEffectKind::Breathing { initial_strength, step, peak, .. } => {
                initial_strength > UNIT || step > UNIT || peak > UNIT || peak < initial_strength
            },
            RumbleEffectKind::Blink { strength, .. } => strength > UNIT,
        }
    }

    /// The strength as soon as the effect is set.
    pub fn get_initial_rumble(&self) -> (r: u32)
        ensures
            r == spec_initial_rumble(*self),
    {
        match *self {
            RumbleEffectKind::Off => 0,
            RumbleEffectKind::Static { strength } => strength,
            RumbleEffectKind::Breathing { initial_strength, .. } => initial_strength,
            RumbleEffectKind::Blink { strength, .. } => strength,
        }
    }

    /// One tick: the animation state moves on and the next strength is returned.
    pub fn get_updated_rumble(&mut self, current_rumble: u32, now: u64) -> (r: u32)
        ensures
            (*final(self), r) == spec_rumble_advance(*old(self), current_rumble, now),
    {
        match self {
            RumbleEffectKind::Off => 0,
            RumbleEffectKind::Static { strength } => *strength,
            RumbleEffectKind::Breathing { initial_strength, step, peak, inhaling } => {
                proof {
                    assert(*step * *peak <= 0xffff_ffff * 0xffff_ffff) by (nonlinear_arith)
                        requires *step <= 0xffff_ffff, *peak <= 0xffff_ffff;
                    assert(*step * *peak / (UNIT as int) <= *step * *peak) by (nonlinear_arith)
                        requires 0 <= *step * *peak;
                }
                let delta: u64 = (*step as u64 * *peak as u64) / UNIT as u64;
                let current: u64 = current_rumble as u64;
                let moved: u64 = if *inhaling {
                    current + delta
                } else if current >= delta {
                    current - delta
                } else {
                    0
                };
                if moved >= *peak as u64 {
                    *inhaling = false;
                    *peak
                } else if moved <= *initial_strength as u64 {
                    *inhaling = true;
                    *initial_strength
                } else {
                    moved as u32
                }
            },
            RumbleEffectKind::Blink { strength, interval, last_blink } => {
                let e: u64 = if now >= *last_blink { now - *last_blink } else { 0 };
                if e > *interval / 2 {
                    *last_blink = now;
                    if current_rumble == 0 { *strength } else { 0 }
                } else {
                    current_rumble
                }
            },
        }
    }
}

/// A rumble effect: its kind, when it started and for how long it lasts.
#[derive(Clone, Copy, Debug, PartialEq, Eq, Structural)]
pub struct RumbleEffect {
    pub kind: RumbleEffectKind,
    /// Milliseconds on the caller's clock.
    pub start: u64,
    /// Milliseconds; `None` for an effect that never ends.
    pub duration: Option<u64>,
}

impl RumbleEffect {
    /// The effect carries a duration that has fully run out at `now`.
    pub open spec fn expired_at(&self, now: u64) -> bool {
        match self.duration {
            Some(d) => elapsed(now, self.start) >= d,
            None => false,
        }
    }

    pub fn new_expiring(kind: RumbleEffectKind, duration: u64, now: u64) -> (r: RumbleEffect)
        ensures
            r == (RumbleEffect { kind, start: now, duration: Some(duration) }),
    {
        RumbleEffect { kind, start: now, duration: Some(duration) }
    }

    pub fn new(kind: RumbleEffectKind, now: u64) -> (r: RumbleEffect)
        ensures
            r == (RumbleEffect { kind, start: now, duration: None }),
    {
        RumbleEffect { kind, start: now, duration: None }
    }

    /// A lasting Off effect started at `now`.
    pub open spec fn off_spec(now: u64) -> RumbleEffect {
        RumbleEffect { kind: RumbleEffectKind::Off, start: now, duration: None }
    }

    pub fn off(now: u64) -> (r: RumbleEffect)
        ensures
            r == RumbleEffect::off_spec(now),
    {
        RumbleEffect { kind: RumbleEffectKind::Off, start: now, duration: None }
    }

    /// An expiring effect when a duration is given, otherwise a lasting one.
    pub fn from(kind: RumbleEffectKind, duration_millis: Option<i32>, now: u64) -> (r: RumbleEffect)
        requires
            duration_millis matches Some(d) ==> d >= 0,
        ensures
            r.kind == kind,
            r.start == now,
            r.duration == match duration_millis {
                Some(d) => Some(d as u64),
                None => None::<u64>,
            },
    {
        match duration_millis {
            Some(millis) => RumbleEffect::new_expiring(kind, millis as u64, now),
            None => RumbleEffect::new(kind, now),
        }
    }

    /// The duration has fully run out at `now`.
    pub fn has_expired(&self, now: u64) -> (r: bool)
        ensures
            r == self.expired_at(now),
    {
        match self.duration {
            Some(d) => {
                let e: u64 = if now >= self.start { now - self.start } else { 0 };
                e >= d
            },
            None => false,
        }
    }
}

} // verus!
