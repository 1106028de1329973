//! Decisions of the periodic tasks: applying effect commands, ticking the
//! effects, and reconciling the controller list with a scan. The caller runs
//! the loops, holds the lock and does the device I/O.

use vstd::prelude::*;
use crate::color::Hsv;
use crate::controller::{
    spec_led_tick, spec_merge, spec_revert, spec_rumble_tick, spec_set_led, spec_set_rumble, MoveSetting,
    PsMoveController,
};
use crate::models::{ConnectionType, ControllerInfo};
use crate::led_effects::{spec_advance, spec_initial_hsv, LedEffect, LedEffectKind};
use crate::rumble_effects::RumbleEffect;

verus! {

/// Period of the list update, in milliseconds.
pub const LIST_UPDATE_INTERVAL_MILLIS: u64 = 500;

/// Period of the controller update, in milliseconds.
pub const CONTROLLER_UPDATE_INTERVAL_MILLIS: u64 = 10;

/// Which controllers a command is for.
#[derive(Debug)]
pub enum EffectTarget {
    All,
    Only { bt_addresses: Vec<String> },
}

/// What a command changes.
#[derive(Debug)]
#[allow(inconsistent_fields)]
pub enum EffectChangeType {
    RevertLed,
    Led { effect: LedEffect },
    Rumble { effect: RumbleEffect },
}

/// A command from the outside: a change and the controllers it is for.
#[derive(Debug)]
pub struct EffectChange {
    pub target: EffectTarget,
    pub effect: EffectChangeType,
}

impl EffectChangeType {
    /// An LED effect in the change can be animated (see `LedEffectKind::wf`);
    /// parameter ranges are not part of it.
    pub open spec fn wf(&self) -> bool {
        match *self {
            EffectChangeType::RevertLed => true,
            EffectChangeType::Led { effect } => effect.wf(),
            EffectChangeType::Rumble { .. } => true,
        }
    }

    /// Whether the effect in the change is well formed (see `wf`).
    pub fn is_well_formed(&self) -> (r: bool)
        ensures
            r == self.wf(),
    {
        match self {
            EffectChangeType::RevertLed => true,
            EffectChangeType::Led { effect } => effect.kind.is_well_formed(),
            EffectChangeType::Rumble { .. } => true,
        }
    }

    /// Whether the effect in the change has a parameter outside its intended
    /// range (which is applied all the same; the caller only logs it).
    pub fn has_out_of_range_parameters(&self) -> (r: bool)
        ensures
            r == match *self {
                EffectChangeType::RevertLed => false,
                EffectChangeType::Led { effect } => effect.kind.spec_out_of_range(),
                EffectChangeType::Rumble { effect } => effect.kind.spec_out_of_range(),
            },
    {
        match self {
            EffectChangeType::RevertLed => false,
            EffectChangeType::Led { effect } => effect.kind.has_out_of_range_parameters(),
            EffectChangeType::Rumble { effect } => effect.kind.has_out_of_range_parameters(),
        }
    }
}

/// `after` is `before` once `change` has been applied at `now` (an LED effect
/// is applied as a copy of the one in the command).
pub open spec fn effect_applied<D>(
    before: PsMoveController<D>,
    after: PsMoveController<D>,
    change: EffectChangeType,
    now: u64,
) -> bool {
    match change {
        EffectChangeType::RevertLed => after == spec_revert(before, now),
        EffectChangeType::Led { effect } => {
            after.led_effect.same_as(effect) && after == spec_set_led(before, after.led_effect)
        },
        EffectChangeType::Rumble { effect } => after == spec_set_rumble(before, effect),
    }
}

/// Applies one change to one controller.
pub fn mutate_controller_effect<D>(controller: &mut PsMoveController<D>, change: &EffectChangeType, now: u64)
    requires
        old(controller).wf(),
        change.wf(),
    ensures
        final(controller).wf(),
        effect_applied(*old(controller), *final(controller), *change, now),
{
    match change {
        EffectChangeType::RevertLed => {
            controller.revert_led_effect(now);
        },
        EffectChangeType::Led { effect } => {
            controller.set_led_effect(effect.clone());
        },
        EffectChangeType::Rumble { effect } => {
            controller.set_rumble_effect(*effect);
        },
    }
}

/// The default LED effect for controllers that connect later, animated like a
/// controller with no device behind it.
#[derive(Debug)]
pub struct InitialLedState {
    pub hsv: Hsv,
    pub effect: LedEffect,
}

impl InitialLedState {
    /// The default effect can be animated (see `LedEffectKind::wf`).
    pub open spec fn wf(&self) -> bool {
        self.effect.wf()
    }

    /// Starts `effect` at its initial colour.
    pub fn from(effect: LedEffect) -> (r: InitialLedState)
        requires
            effect.wf(),
        ensures
            r.wf(),
            r.effect == effect,
            r.hsv == spec_initial_hsv(effect.kind),
    {
        let hsv = effect.kind.get_initial_hsv();
        InitialLedState { hsv, effect }
    }

    /// One effect tick, exactly as a controller's LED advances.
    pub fn advance(&mut self, now: u64)
        requires
            old(self).wf(),
        ensures
            final(self).wf(),
            final(self).effect.start == old(self).effect.start,
            final(self).effect.duration == old(self).effect.duration,
            exists|sample: i64| #[trigger] old(self).effect.kind.sample_fits(sample)
                && (final(self).effect.kind, final(self).hsv)
                    == spec_advance(old(self).effect.kind, old(self).hsv, now, sample),
    {
        let current = self.hsv;
        self.hsv = self.effect.kind.get_updated_hsv(current, now);
    }

    /// Replaces an effect that has run out by Off. Returns
    /// whether it did.
    pub fn expire(&mut self, now: u64) -> (expired: bool)
        requires
            old(self).wf(),
        ensures
            final(self).wf(),
            expired == old(self).effect.expired_at(now),
            expired ==> final(self).effect == LedEffect::off_spec(now) && final(self).hsv == old(self).hsv,
            !expired ==> *final(self) == *old(self),
    {
        if self.effect.has_expired(now) {
            self.effect = LedEffect::off(now);
            true
        } else {
            false
        }
    }
}

/// The effect the process starts with: a three second breathing in violet.
pub fn on_startup_effect(now: u64) -> (r: LedEffect)
    ensures
        r.wf(),
        r == LedEffect::new_expiring_spec(
            LedEffectKind::Breathing {
                initial_hsv: Hsv { hue: 270000, saturation: 1000, value: 1 },
                time_to_peak: 3000,
                peak: 300,
                inhaling: true,
                last_update: now,
            },
            3000,
            now,
        ),
{
    let kind = LedEffectKind::new_timed_breathing(Hsv::new(270000, 1000, 1), 3000, 300, now);
    LedEffect::new_expiring(kind, 3000, now)
}

/// The short blink shown on a controller that connects while no default
/// effect is active: amber, toggling every quarter second, for one second.
pub open spec fn on_connected_effect_spec(now: u64) -> LedEffect {
    LedEffect::new_expiring_spec(
        LedEffectKind::Blink {
            hsv: Hsv { hue: 42000, saturation: 1000, value: 350 },
            interval: 500,
            last_blink: now,
        },
        1000,
        now,
    )
}

/// The short blink shown on a controller that connects while no default
/// effect is active.
pub fn get_on_connected_effect(now: u64) -> (r: LedEffect)
    ensures
        r.wf(),
        r == on_connected_effect_spec(now),
{
    let kind = LedEffectKind::Blink { hsv: Hsv::new(42000, 1000, 350), interval: 500, last_blink: now };
    LedEffect::new_expiring(kind, 1000, now)
}

/// All controllers are well formed.
pub open spec fn all_wf<D>(ctls: Seq<PsMoveController<D>>) -> bool {
    forall|i: int| 0 <= i < ctls.len() ==> (#[trigger] ctls[i]).wf()
}

/// `after` is `before` after one tick of both of its effects at `now`, for
/// some candle sample within range.
pub open spec fn effects_ticked<D>(before: PsMoveController<D>, after: PsMoveController<D>, now: u64) -> bool {
    exists|sample: i64| #[trigger] before.led_effect.kind.sample_fits(sample)
        && after == spec_rumble_tick(spec_led_tick(before, now, sample), now)
}

/// One tick of the effect loop: every controller's LED and rumble effects
/// advance, and so does the default effect.
pub fn tick_effects<D>(controllers: &mut Vec<PsMoveController<D>>, initial_state: &mut InitialLedState, now: u64)
    requires
        all_wf(old(controllers)@),
        old(initial_state).wf(),
    ensures
        all_wf(final(controllers)@),
        final(initial_state).wf(),
        final(controllers)@.len() == old(controllers)@.len(),
        forall|i: int| 0 <= i < old(controllers)@.len()
            ==> #[trigger] effects_ticked(old(controllers)@[i], final(controllers)@[i], now),
        final(initial_state).effect.start == old(initial_state).effect.start,
        final(initial_state).effect.duration == old(initial_state).effect.duration,
        exists|sample: i64| #[trigger] old(initial_state).effect.kind.sample_fits(sample)
            && (final(initial_state).effect.kind, final(initial_state).hsv)
                == spec_advance(old(initial_state).effect.kind, old(initial_state).hsv, now, sample),
{
    let ghost before = controllers@;
    let mut i: usize = 0;
    while i < controllers.len()
        invariant
            i <= controllers@.len(),
            controllers@.len() == before.len(),
            all_wf(before),
            all_wf(controllers@),
            forall|j: int| i <= j < before.len() ==> controllers@[j] == before[j],
            forall|j: int| 0 <= j < i ==> #[trigger] effects_ticked(before[j], controllers@[j], now),
        decreases controllers@.len() - i,
    {
        controllers[i].transform_led(now);
        controllers[i].transform_rumble(now);
        i = i + 1;
    }
    initial_state.advance(now);
}

/// Some controller carries address `a`.
pub open spec fn known_address<D>(ctls: Seq<PsMoveController<D>>, a: Seq<char>) -> bool {
    exists|i: int| 0 <= i < ctls.len() && #[trigger] ctls[i].bt_address@ == a
}

/// The addresses among the first `n` that no controller carries, in order.
pub open spec fn unknown_addresses<D>(ctls: Seq<PsMoveController<D>>, addrs: Seq<String>, n: int) -> Seq<String>
    decreases n,
{
    if n <= 0 {
        Seq::empty()
    } else {
        let prev = unknown_addresses(ctls, addrs, n - 1);
        if known_address(ctls, addrs[n - 1]@) {
            prev
        } else {
            prev.push(addrs[n - 1])
        }
    }
}

/// How many of the first `n` addresses equal `a`.
pub open spec fn occurrences(addrs: Seq<String>, a: Seq<char>, n: int) -> nat
    decreases n,
{
    if n <= 0 {
        0
    } else {
        occurrences(addrs, a, n - 1) + if addrs[n - 1]@ == a { 1nat } else { 0nat }
    }
}

/// `steps` runs from `before` to `after` in `n` applications of `change` at
/// `now`, one between each two neighbours.
pub open spec fn change_chain<D>(
    steps: Seq<PsMoveController<D>>,
    before: PsMoveController<D>,
    after: PsMoveController<D>,
    change: EffectChangeType,
    now: u64,
    n: nat,
) -> bool {
    &&& steps.len() == n + 1
    &&& steps[0] == before
    &&& steps[n as int] == after
    &&& forall|k: int| 0 <= k < n ==> #[trigger] effect_applied(steps[k], steps[k + 1], change, now)
}

/// `after` is `before` once `change` has been applied `n` times in a row at
/// `now` (zero times: unchanged).
pub open spec fn applied_times<D>(
    before: PsMoveController<D>,
    after: PsMoveController<D>,
    change: EffectChangeType,
    now: u64,
    n: nat,
) -> bool {
    exists|steps: Seq<PsMoveController<D>>| #[trigger] change_chain(steps, before, after, change, now, n)
}

/// Applying a change zero times leaves the controller as it is, and once is
/// one `effect_applied` step.
pub proof fn lemma_applied_zero_and_once<D>(
    before: PsMoveController<D>,
    after: PsMoveController<D>,
    change: EffectChangeType,
    now: u64,
)
    ensures
        applied_times(before, after, change, now, 0) == (after == before),
        applied_times(before, after, change, now, 1) == effect_applied(before, after, change, now),
{
    if after == before {
        assert(change_chain(seq![before], before, after, change, now, 0));
    }
    if applied_times(before, after, change, now, 0) {
        let steps = choose|steps: Seq<PsMoveController<D>>| #[trigger] change_chain(steps, before, after, change, now, 0);
        assert(change_chain(steps, before, after, change, now, 0));
        let zero: nat = 0;
        assert(steps[zero as int] == after);
        assert(steps[0] == before);
    }
    if effect_applied(before, after, change, now) {
        let steps = seq![before, after];
        assert(effect_applied(steps[0], steps[1], change, now));
        assert(change_chain(steps, before, after, change, now, 1));
    }
    if applied_times(before, after, change, now, 1) {
        let steps = choose|steps: Seq<PsMoveController<D>>| #[trigger] change_chain(steps, before, after, change, now, 1);
        assert(change_chain(steps, before, after, change, now, 1));
        let one: nat = 1;
        assert(steps[one as int] == after);
        assert(effect_applied(steps[0int], steps[0int + 1], change, now));
    }
}

/// One more application extends a run of applications.
proof fn lemma_applied_extend<D>(
    before: PsMoveController<D>,
    mid: PsMoveController<D>,
    after: PsMoveController<D>,
    change: EffectChangeType,
    now: u64,
    n: nat,
)
    requires
        applied_times(before, mid, change, now, n),
        effect_applied(mid, after, change, now),
    ensures
        applied_times(before, after, change, now, n + 1),
{
    let steps = choose|steps: Seq<PsMoveController<D>>| #[trigger] change_chain(steps, before, mid, change, now, n);
    let longer = steps.push(after);
    assert forall|k: int| 0 <= k < n + 1 implies #[trigger] effect_applied(longer[k], longer[k + 1], change, now) by {
        if k < n {
            assert(longer[k] == steps[k]);
            assert(longer[k + 1] == steps[k + 1]);
        }
    }
    assert(change_chain(longer, before, after, change, now, (n + 1) as nat));
}

/// No controller before `i` carries the address of controller `i`.
pub open spec fn first_with_address<D>(ctls: Seq<PsMoveController<D>>, i: int) -> bool {
    forall|j: int| 0 <= j < i ==> #[trigger] ctls[j].bt_address@ != ctls[i].bt_address@
}

/// The first controller that carries address `addr`.
pub fn find_controller<D>(controllers: &Vec<PsMoveController<D>>, addr: &String) -> (r: Option<usize>)
    ensures
        match r {
            Some(i) => i < controllers@.len() && controllers@[i as int].bt_address@ == addr@
                && first_with_address(controllers@, i as int),
            None => !known_address(controllers@, addr@),
        },
{
    let mut j: usize = 0;
    while j < controllers.len()
        invariant
            j <= controllers@.len(),
            forall|m: int| 0 <= m < j ==> #[trigger] controllers@[m].bt_address@ != addr@,
        decreases controllers@.len() - j,
    {
        if controllers[j].bt_address == *addr {
            return Some(j);
        }
        j = j + 1;
    }
    None
}

/// Applies a command. A command for all controllers applies to each, and an
/// LED effect in it becomes the default for later arrivals. A command for
/// listed addresses applies, address by address, to the first controller
/// that carries it (as many times as the address is listed); the addresses no
/// controller carries are returned (for a warning) and change nothing, and do
/// not keep the change from the other addresses. Parameters outside their
/// intended ranges are applied as given.
pub fn apply_effect_change<D>(
    controllers: &mut Vec<PsMoveController<D>>,
    initial_state: &mut InitialLedState,
    change: &EffectChange,
    now: u64,
) -> (unknown: Vec<String>)
    requires
        all_wf(old(controllers)@),
        old(initial_state).wf(),
        change.effect.wf(),
    ensures
        all_wf(final(controllers)@),
        final(initial_state).wf(),
        final(controllers)@.len() == old(controllers)@.len(),
        change.target is All ==> {
            &&& unknown@.len() == 0
            &&& forall|i: int| 0 <= i < old(controllers)@.len()
                ==> #[trigger] effect_applied(old(controllers)@[i], final(controllers)@[i], change.effect, now)
            &&& match change.effect {
                EffectChangeType::Led { effect } => {
                    &&& final(initial_state).effect.same_as(effect)
                    &&& final(initial_state).hsv == spec_initial_hsv(effect.kind)
                },
                _ => *final(initial_state) == *old(initial_state),
            }
        },
        change.target matches EffectTarget::Only { bt_addresses } ==> {
            &&& *final(initial_state) == *old(initial_state)
            &&& unknown@ == unknown_addresses(old(controllers)@, bt_addresses@, bt_addresses@.len() as int)
            &&& forall|i: int| 0 <= i < old(controllers)@.len() && !first_with_address(old(controllers)@, i)
                ==> #[trigger] final(controllers)@[i] == old(controllers)@[i]
            &&& forall|i: int| 0 <= i < old(controllers)@.len() && first_with_address(old(controllers)@, i)
                ==> #[trigger] applied_times(
                    old(controllers)@[i],
                    final(controllers)@[i],
                    change.effect,
                    now,
                    occurrences(bt_addresses@, old(controllers)@[i].bt_address@, bt_addresses@.len() as int),
                )
        },
{
    let ghost before = controllers@;
    let mut unknown: Vec<String> = Vec::new();
    match &change.target {
        EffectTarget::All => {
            let mut i: usize = 0;
            while i < controllers.len()
                invariant
                    i <= controllers@.len(),
                    controllers@.len() == before.len(),
                    all_wf(controllers@),
                    change.effect.wf(),
                    forall|j: int| i <= j < before.len() ==> controllers@[j] == before[j],
                    forall|j: int| 0 <= j < i ==> #[trigger] effect_applied(before[j], controllers@[j], change.effect, now),
                decreases controllers@.len() - i,
            {
                mutate_controller_effect(&mut controllers[i], &change.effect, now);
                i = i + 1;
            }
            match &change.effect {
                EffectChangeType::Led { effect } => {
                    *initial_state = InitialLedState::from(effect.clone());
                },
                _ => {},
            }
        },
        EffectTarget::Only { bt_addresses } => {
            proof {
                assert forall|i: int| 0 <= i < before.len() && first_with_address(before, i) implies
                    #[trigger] applied_times(before[i], controllers@[i], change.effect, now,
                        occurrences(bt_addresses@, before[i].bt_address@, 0)) by {
                    lemma_applied_zero_and_once(before[i], before[i], change.effect, now);
                }
            }
            let mut k: usize = 0;
            while k < bt_addresses.len()
                invariant
                    k <= bt_addresses@.len(),
                    controllers@.len() == before.len(),
                    all_wf(controllers@),
                    change.effect.wf(),
                    forall|i: int| 0 <= i < before.len() ==> #[trigger] controllers@[i].bt_address == before[i].bt_address,
                    unknown@ == unknown_addresses(before, bt_addresses@, k as int),
                    forall|i: int| 0 <= i < before.len() && !first_with_address(before, i)
                        ==> #[trigger] controllers@[i] == before[i],
                    forall|i: int| 0 <= i < before.len() && first_with_address(before, i)
                        ==> #[trigger] applied_times(
                            before[i],
                            controllers@[i],
                            change.effect,
                            now,
                            occurrences(bt_addresses@, before[i].bt_address@, k as int),
                        ),
                decreases bt_addresses@.len() - k,
            {
                let addr = &bt_addresses[k];
                let found = find_controller(controllers, addr);
                proof {
                    assert forall|i: int| 0 <= i < before.len() implies
                        (#[trigger] controllers@[i]).bt_address@ == before[i].bt_address@ by {
                        assert(controllers@[i].bt_address == before[i].bt_address);
                    }
                    if !known_address(controllers@, addr@) {
                        if known_address(before, addr@) {
                            let w = choose|w: int| 0 <= w < before.len() && #[trigger] before[w].bt_address@ == addr@;
                            assert(controllers@[w].bt_address == before[w].bt_address);
                        }
                    } else {
                        let w = choose|w: int| 0 <= w < controllers@.len() && #[trigger] controllers@[w].bt_address@ == addr@;
                        assert(controllers@[w].bt_address == before[w].bt_address);
                        assert(known_address(before, addr@));
                    }
                    assert(unknown_addresses(before, bt_addresses@, k + 1) == if known_address(before, addr@) {
                        unknown_addresses(before, bt_addresses@, k as int)
                    } else {
                        unknown_addresses(before, bt_addresses@, k as int).push(bt_addresses@[k as int])
                    });
                }
                match found {
                    Some(j) => {
                        let ghost pre = controllers@;
                        proof {
                            assert(first_with_address(before, j as int)) by {
                                assert forall|m: int| 0 <= m < j implies #[trigger] before[m].bt_address@ != before[j as int].bt_address@ by {
                                    assert(controllers@[m].bt_address == before[m].bt_address);
                                    assert(controllers@[j as int].bt_address == before[j as int].bt_address);
                                }
                            }
                        }
                        mutate_controller_effect(&mut controllers[j], &change.effect, now);
                        proof {
                            assert(controllers@[j as int].bt_address == before[j as int].bt_address);
                            assert forall|i: int| 0 <= i < before.len() && i != j implies
                                #[trigger] controllers@[i] == pre[i] by {}
                            assert forall|i: int| 0 <= i < before.len() && first_with_address(before, i)
                                implies #[trigger] applied_times(
                                    before[i],
                                    controllers@[i],
                                    change.effect,
                                    now,
                                    occurrences(bt_addresses@, before[i].bt_address@, k + 1),
                                ) by {
                                let n = occurrences(bt_addresses@, before[i].bt_address@, k as int);
                                if i == j {
                                    assert(applied_times(before[i], pre[i], change.effect, now, n));
                                    assert(effect_applied(pre[i], controllers@[i], change.effect, now));
                                    assert(occurrences(bt_addresses@, before[i].bt_address@, k + 1) == n + 1);
                                    lemma_applied_extend(before[i], pre[i], controllers@[i], change.effect, now, n);
                                } else {
                                    if before[i].bt_address@ == addr@ {
                                        if i < j {
                                            assert(before[i].bt_address@ != before[j as int].bt_address@);
                                        } else {
                                            assert(before[j as int].bt_address@ != before[i].bt_address@);
                                        }
                                    }
                                    assert(occurrences(bt_addresses@, before[i].bt_address@, k + 1) == n);
                                    assert(pre[i] == controllers@[i]);
                                }
                            }
                        }
                    },
                    None => {
                        unknown.push(addr.clone());
                        proof {
                            assert forall|i: int| 0 <= i < before.len() implies
                                #[trigger] occurrences(bt_addresses@, before[i].bt_address@, k + 1)
                                    == occurrences(bt_addresses@, before[i].bt_address@, k as int) by {
                                assert(controllers@[i].bt_address == before[i].bt_address);
                            }
                        }
                    },
                }
                k = k + 1;
            }
        },
    }
    unknown
}

/// The scan shows the USB path of `c`.
pub open spec fn usb_seen<D>(c: PsMoveController<D>, current: Seq<ControllerInfo>) -> bool {
    exists|i: int| 0 <= i < current.len() && #[trigger] current[i].usb_path@ == c.info.usb_path@
}

/// The scan shows the Bluetooth path of `c`.
pub open spec fn bt_seen<D>(c: PsMoveController<D>, current: Seq<ControllerInfo>) -> bool {
    exists|i: int| 0 <= i < current.len() && #[trigger] current[i].bt_path@ == c.info.bt_path@
}

/// How `c` is reachable after the scan: a dual-transport controller that
/// shows on one transport only keeps that one; anything else stays as it was.
pub open spec fn remaining_transport<D>(c: PsMoveController<D>, current: Seq<ControllerInfo>) -> ConnectionType {
    if c.connection_type == ConnectionType::UsbAndBluetooth && usb_seen(c, current) && !bt_seen(c, current) {
        ConnectionType::Usb
    } else if c.connection_type == ConnectionType::UsbAndBluetooth && bt_seen(c, current) && !usb_seen(c, current) {
        ConnectionType::Bluetooth
    } else {
        c.connection_type
    }
}

/// `c` with its transport as the scan leaves it.
pub open spec fn downgraded<D>(c: PsMoveController<D>, current: Seq<ControllerInfo>) -> PsMoveController<D> {
    PsMoveController { connection_type: remaining_transport(c, current), ..c }
}

fn path_seen(path: &String, current: &Vec<ControllerInfo>, usb: bool) -> (r: bool)
    ensures
        usb ==> r == exists|i: int| 0 <= i < current@.len() && #[trigger] current@[i].usb_path@ == path@,
        !usb ==> r == exists|i: int| 0 <= i < current@.len() && #[trigger] current@[i].bt_path@ == path@,
{
    let mut i: usize = 0;
    while i < current.len()
        invariant
            i <= current@.len(),
            usb ==> forall|m: int| 0 <= m < i ==> #[trigger] current@[m].usb_path@ != path@,
            !usb ==> forall|m: int| 0 <= m < i ==> #[trigger] current@[m].bt_path@ != path@,
        decreases current@.len() - i,
    {
        let seen = if usb { current[i].usb_path == *path } else { current[i].bt_path == *path };
        if seen {
            return true;
        }
        i = i + 1;
    }
    false
}

/// Downgrades each dual-transport controller that the scan shows on one
/// transport only to that transport.
pub fn update_changed_controllers<D>(controllers: &mut Vec<PsMoveController<D>>, current: &Vec<ControllerInfo>)
    requires
        all_wf(old(controllers)@),
    ensures
        all_wf(final(controllers)@),
        final(controllers)@.len() == old(controllers)@.len(),
        forall|i: int| 0 <= i < old(controllers)@.len()
            ==> #[trigger] final(controllers)@[i] == downgraded(old(controllers)@[i], current@),
{
    let ghost before = controllers@;
    let mut i: usize = 0;
    while i < controllers.len()
        invariant
            i <= controllers@.len(),
            controllers@.len() == before.len(),
            all_wf(before),
            forall|j: int| i <= j < before.len() ==> controllers@[j] == before[j],
            forall|j: int| 0 <= j < i ==> #[trigger] controllers@[j] == downgraded(before[j], current@),
        decreases controllers@.len() - i,
    {
        if controllers[i].connection_type == ConnectionType::UsbAndBluetooth {
            let usb = path_seen(&controllers[i].info.usb_path, current, true);
            let bt = path_seen(&controllers[i].info.bt_path, current, false);
            if usb && !bt {
                controllers[i].connection_type = ConnectionType::Usb;
            } else if bt && !usb {
                controllers[i].connection_type = ConnectionType::Bluetooth;
            }
        }
        i = i + 1;
    }
    assert forall|j: int| 0 <= j < controllers@.len() implies (#[trigger] controllers@[j]).wf() by {
        assert(before[j].wf());
    }
}

/// `c` belongs to one of the disconnected keys.
pub open spec fn is_disconnected<D>(c: PsMoveController<D>, disconnected: Seq<ControllerInfo>) -> bool {
    exists|k: int| 0 <= k < disconnected.len() && #[trigger] c.spec_same_device(disconnected[k])
}

/// The controllers that a removal keeps.
pub open spec fn stays<D>(disconnected: Seq<ControllerInfo>) -> spec_fn(PsMoveController<D>) -> bool {
    |c: PsMoveController<D>| !is_disconnected(c, disconnected)
}

/// The controllers that a removal takes out.
pub open spec fn leaves<D>(disconnected: Seq<ControllerInfo>) -> spec_fn(PsMoveController<D>) -> bool {
    |c: PsMoveController<D>| is_disconnected(c, disconnected)
}

fn is_disconnected_exec<D>(c: &PsMoveController<D>, disconnected: &Vec<ControllerInfo>) -> (r: bool)
    ensures
        r == is_disconnected(*c, disconnected@),
{
    let mut k: usize = 0;
    while k < disconnected.len()
        invariant
            k <= disconnected@.len(),
            forall|m: int| 0 <= m < k ==> !(#[trigger] c.spec_same_device(disconnected@[m])),
        decreases disconnected@.len() - k,
    {
        if c.is_same_device(&disconnected[k]) {
            return true;
        }
        k = k + 1;
    }
    false
}

/// Takes out the controllers that belong to a disconnected key, keeping the
/// order of the others; returns the ones taken out, in order.
pub fn remove_disconnected_controllers<D>(
    controllers: &mut Vec<PsMoveController<D>>,
    disconnected: &Vec<ControllerInfo>,
) -> (removed: Vec<PsMoveController<D>>)
    requires
        all_wf(old(controllers)@),
    ensures
        all_wf(final(controllers)@),
        final(controllers)@ == old(controllers)@.filter(stays::<D>(disconnected@)),
        removed@ == old(controllers)@.filter(leaves::<D>(disconnected@)),
{
    let ghost before = controllers@;
    let mut rest: Vec<PsMoveController<D>> = Vec::new();
    core::mem::swap(controllers, &mut rest);
    let mut removed: Vec<PsMoveController<D>> = Vec::new();
    let ghost mut i: int = 0;
    while rest.len() > 0
        invariant
            0 <= i <= before.len(),
            rest@ == before.subrange(i, before.len() as int),
            all_wf(before),
            all_wf(controllers@),
            controllers@ == before.take(i).filter(stays::<D>(disconnected@)),
            removed@ == before.take(i).filter(leaves::<D>(disconnected@)),
        decreases rest@.len(),
    {
        let c = rest.remove(0);
        proof {
            reveal(Seq::filter);
            assert(before.take(i + 1).drop_last() =~= before.take(i));
            assert(before.take(i + 1).last() == c);
        }
        if is_disconnected_exec(&c, disconnected) {
            removed.push(c);
        } else {
            controllers.push(c);
        }
        proof {
            i = i + 1;
            assert(rest@ =~= before.subrange(i, before.len() as int));
        }
    }
    assert(before.take(i) =~= before);
    proof {
        reveal(Seq::filter);
    }
    removed
}

/// Some address of `addresses` equals `a`.
pub open spec fn address_listed(addresses: Seq<String>, a: Seq<char>) -> bool {
    exists|k: int| 0 <= k < addresses.len() && #[trigger] addresses[k]@ == a
}

/// The controllers that keep their place: their address is not listed.
pub open spec fn address_not_listed<D>(addresses: Seq<String>) -> spec_fn(PsMoveController<D>) -> bool {
    |c: PsMoveController<D>| !address_listed(addresses, c.bt_address@)
}

/// The controllers whose address is listed.
pub open spec fn address_is_listed<D>(addresses: Seq<String>) -> spec_fn(PsMoveController<D>) -> bool {
    |c: PsMoveController<D>| address_listed(addresses, c.bt_address@)
}

fn address_listed_exec(addresses: &Vec<String>, a: &String) -> (r: bool)
    ensures
        r == address_listed(addresses@, a@),
{
    let mut k: usize = 0;
    while k < addresses.len()
        invariant
            k <= addresses@.len(),
            forall|m: int| 0 <= m < k ==> #[trigger] addresses@[m]@ != a@,
        decreases addresses@.len() - k,
    {
        if addresses[k] == *a {
            return true;
        }
        k = k + 1;
    }
    false
}

/// Takes out the controllers whose address is listed (those whose device I/O
/// failed), keeping the order of the others; returns the ones taken out.
pub fn remove_controllers_by_address<D>(
    controllers: &mut Vec<PsMoveController<D>>,
    addresses: &Vec<String>,
) -> (removed: Vec<PsMoveController<D>>)
    requires
        all_wf(old(controllers)@),
    ensures
        all_wf(final(controllers)@),
        final(controllers)@ == old(controllers)@.filter(address_not_listed::<D>(addresses@)),
        removed@ == old(controllers)@.filter(address_is_listed::<D>(addresses@)),
{
    let ghost before = controllers@;
    let mut rest: Vec<PsMoveController<D>> = Vec::new();
    core::mem::swap(controllers, &mut rest);
    let mut removed: Vec<PsMoveController<D>> = Vec::new();
    let ghost mut i: int = 0;
    while rest.len() > 0
        invariant
            0 <= i <= before.len(),
            rest@ == before.subrange(i, before.len() as int),
            all_wf(before),
            all_wf(controllers@),
            controllers@ == before.take(i).filter(address_not_listed::<D>(addresses@)),
            removed@ == before.take(i).filter(address_is_listed::<D>(addresses@)),
        decreases rest@.len(),
    {
        let c = rest.remove(0);
        proof {
            reveal(Seq::filter);
            assert(before.take(i + 1).drop_last() =~= before.take(i));
            assert(before.take(i + 1).last() == c);
        }
        if address_listed_exec(addresses, &c.bt_address) {
            removed.push(c);
        } else {
            controllers.push(c);
        }
        proof {
            i = i + 1;
            assert(rest@ =~= before.subrange(i, before.len() as int));
        }
    }
    assert(before.take(i) =~= before);
    proof {
        reveal(Seq::filter);
    }
    removed
}

/// Position of the first controller from `start` on that carries address
/// `a`, or -1.
pub open spec fn index_of_address<D>(ctls: Seq<PsMoveController<D>>, a: Seq<char>, start: int) -> int
    decreases ctls.len() - start,
{
    if start < 0 || start >= ctls.len() {
        -1
    } else if ctls[start].bt_address@ == a {
        start
    } else {
        index_of_address(ctls, a, start + 1)
    }
}

proof fn lemma_index_of_found<D>(ctls: Seq<PsMoveController<D>>, a: Seq<char>, start: int, i: int)
    requires
        0 <= start <= i < ctls.len(),
        ctls[i].bt_address@ == a,
        forall|j: int| start <= j < i ==> #[trigger] ctls[j].bt_address@ != a,
    ensures
        index_of_address(ctls, a, start) == i,
    decreases i - start,
{
    if start < i {
        lemma_index_of_found(ctls, a, start + 1, i);
    }
}

proof fn lemma_index_of_missing<D>(ctls: Seq<PsMoveController<D>>, a: Seq<char>, start: int)
    requires
        0 <= start,
        forall|j: int| start <= j < ctls.len() ==> #[trigger] ctls[j].bt_address@ != a,
    ensures
        index_of_address(ctls, a, start) == -1,
    decreases ctls.len() - start,
{
    if start < ctls.len() {
        lemma_index_of_missing(ctls, a, start + 1);
    }
}

/// The list after a newly opened controller joins it: a controller already
/// known under the same address takes over the new transport (when it
/// differs), otherwise the new one is appended.
pub open spec fn spec_add_connected<D>(ctls: Seq<PsMoveController<D>>, c: PsMoveController<D>) -> Seq<PsMoveController<D>> {
    let i = index_of_address(ctls, c.bt_address@, 0);
    if i < 0 {
        ctls.push(c)
    } else if ctls[i].connection_type != c.connection_type {
        ctls.update(i, spec_merge(ctls[i], c))
    } else {
        ctls
    }
}

/// A newly opened controller joins the list (see `spec_add_connected`).
pub fn add_connected_controllers<D>(controllers: &mut Vec<PsMoveController<D>>, controller: PsMoveController<D>)
    requires
        all_wf(old(controllers)@),
        controller.wf(),
    ensures
        all_wf(final(controllers)@),
        final(controllers)@ == spec_add_connected(old(controllers)@, controller),
{
    let found = find_controller(controllers, &controller.bt_address);
    match found {
        Some(i) => {
            proof {
                lemma_index_of_found(controllers@, controller.bt_address@, 0, i as int);
            }
            if controllers[i].connection_type != controller.connection_type {
                controllers[i].merge_with(&controller);
                assert(controllers@ =~= spec_add_connected(old(controllers)@, controller));
            }
        },
        None => {
            proof {
                lemma_index_of_missing(controllers@, controller.bt_address@, 0);
            }
            controllers.push(controller);
        },
    }
}

/// `after` is the new controller `before` as it starts: with the on-connect
/// blink when no default effect is active, otherwise with a copy of the
/// default effect; either way at the default's current colour (a dark default
/// makes the blink light up on its first toggle).
pub open spec fn seeded<D>(before: PsMoveController<D>, after: PsMoveController<D>, initial: InitialLedState, now: u64) -> bool {
    if initial.effect.kind is Off {
        after == (PsMoveController {
            led_effect: on_connected_effect_spec(now),
            setting: MoveSetting { led: initial.hsv, ..before.setting },
            ..before
        })
    } else {
        &&& after.led_effect.same_as(initial.effect)
        &&& after == (PsMoveController {
            led_effect: after.led_effect,
            setting: MoveSetting { led: initial.hsv, ..before.setting },
            ..before
        })
    }
}

/// Starts a newly opened controller on the default effect (see `seeded`).
pub fn seed_new_controller<D>(controller: &mut PsMoveController<D>, initial_state: &InitialLedState, now: u64)
    requires
        old(controller).wf(),
        initial_state.wf(),
    ensures
        final(controller).wf(),
        seeded(*old(controller), *final(controller), *initial_state, now),
{
    if initial_state.effect.is_off() {
        controller.set_led_effect_with_hsv(get_on_connected_effect(now), initial_state.hsv);
    } else {
        controller.set_led_effect_with_hsv(initial_state.effect.clone(), initial_state.hsv);
    }
}

/// The list after each new controller in turn has joined it.
pub open spec fn spec_add_all<D>(ctls: Seq<PsMoveController<D>>, news: Seq<PsMoveController<D>>) -> Seq<PsMoveController<D>>
    decreases news.len(),
{
    if news.len() == 0 {
        ctls
    } else {
        spec_add_connected(spec_add_all(ctls, news.drop_last()), news.last())
    }
}

/// Each controller of `after` is the one of `before` at the same position,
/// started on the default effect.
pub open spec fn all_seeded<D>(
    before: Seq<PsMoveController<D>>,
    after: Seq<PsMoveController<D>>,
    initial: InitialLedState,
    now: u64,
) -> bool {
    &&& after.len() == before.len()
    &&& forall|k: int| 0 <= k < before.len() ==> #[trigger] seeded(before[k], after[k], initial, now)
}

/// Every controller with its transport as the scan leaves it.
pub open spec fn downgrade_all<D>(ctls: Seq<PsMoveController<D>>, current: Seq<ControllerInfo>) -> Seq<PsMoveController<D>> {
    ctls.map_values(|c: PsMoveController<D>| downgraded(c, current))
}

/// Reconciles the list with a scan: dual-transport controllers seen on one
/// transport are downgraded, controllers of the disconnected keys are taken
/// out (and returned), and the newly opened controllers start on the default
/// effect and join the list in order.
pub fn reconcile_controllers<D>(
    controllers: &mut Vec<PsMoveController<D>>,
    current: &Vec<ControllerInfo>,
    disconnected: &Vec<ControllerInfo>,
    new_controllers: Vec<PsMoveController<D>>,
    initial_state: &InitialLedState,
    now: u64,
) -> (removed: Vec<PsMoveController<D>>)
    requires
        all_wf(old(controllers)@),
        all_wf(new_controllers@),
        initial_state.wf(),
    ensures
        all_wf(final(controllers)@),
        removed@ == downgrade_all(old(controllers)@, current@).filter(leaves::<D>(disconnected@)),
        exists|started: Seq<PsMoveController<D>>| #[trigger] all_seeded(new_controllers@, started, *initial_state, now)
            && final(controllers)@ == spec_add_all(
                downgrade_all(old(controllers)@, current@).filter(stays::<D>(disconnected@)),
                started,
            ),
{
    let ghost before = controllers@;
    update_changed_controllers(controllers, current);
    assert(controllers@ =~= downgrade_all(before, current@));
    let removed = remove_disconnected_controllers(controllers, disconnected);
    let ghost kept = controllers@;
    let ghost mut started: Seq<PsMoveController<D>> = Seq::empty();
    let mut news = new_controllers;
    let ghost all_news = news@;
    while news.len() > 0
        invariant
            all_wf(controllers@),
            all_wf(news@),
            initial_state.wf(),
            started.len() <= all_news.len(),
            news@ == all_news.subrange(started.len() as int, all_news.len() as int),
            all_seeded(all_news.take(started.len() as int), started, *initial_state, now),
            controllers@ == spec_add_all(kept, started),
        decreases news@.len(),
    {
        let mut c = news.remove(0);
        proof {
            assert(all_news[started.len() as int] == c);
        }
        seed_new_controller(&mut c, initial_state, now);
        proof {
            let next = started.push(c);
            assert(next.drop_last() =~= started);
            started = next;
            assert(all_news.take(started.len() as int).drop_last() =~= all_news.take(started.len() - 1));
            assert(news@ =~= all_news.subrange(started.len() as int, all_news.len() as int));
        }
        add_connected_controllers(controllers, c);
    }
    assert(all_news.take(started.len() as int) =~= all_news);
    removed
}

/// Throttled view of the shutdown flag: the shared flag is read again only
/// once `SHUTDOWN_POLL_INTERVAL_MILLIS` have passed since the last read.
#[derive(Clone, Copy, Debug, PartialEq, Eq, Structural)]
pub struct ShutdownSignal {
    /// Milliseconds on the caller's clock of the last read.
    pub last_load: u64,
    /// What the last read saw.
    pub last_flag: bool,
}

/// Minimum time between two reads of the shutdown flag, in milliseconds.
pub const SHUTDOWN_POLL_INTERVAL_MILLIS: u64 = 100;

impl ShutdownSignal {
    pub fn new(now: u64) -> (r: ShutdownSignal)
        ensures
            r == (ShutdownSignal { last_load: now, last_flag: false }),
    {
        ShutdownSignal { last_load: now, last_flag: false }
    }

    /// Whether the shared flag should be read again at `now`.
    pub fn needs_reload(&self, now: u64) -> (r: bool)
        ensures
            r == (crate::led_effects::elapsed(now, self.last_load) >= SHUTDOWN_POLL_INTERVAL_MILLIS),
    {
        let e: u64 = if now >= self.last_load { now - self.last_load } else { 0 };
        e >= SHUTDOWN_POLL_INTERVAL_MILLIS
    }

    /// Records a read of the shared flag made at `now`.
    pub fn record(&mut self, now: u64, flag: bool)
        ensures
            *final(self) == (ShutdownSignal { last_load: now, last_flag: flag }),
    {
        self.last_load = now;
        self.last_flag = flag;
    }

    /// Whether a shutdown has been signalled, as far as the last read saw.
    pub fn is_shutting_down(&self) -> (r: bool)
        ensures
            r == self.last_flag,
    {
        self.last_flag
    }
}

/// A controller seen once over USB only and once over Bluetooth only (the
/// same address) ends up as one controller reachable over both, with both
/// paths, in whichever order the two arrive, in a list that did not know the
/// address.
pub proof fn lemma_usb_and_bluetooth_merge<D>(
    ctls: Seq<PsMoveController<D>>,
    usb: PsMoveController<D>,
    bt: PsMoveController<D>,
)
    requires
        usb.connection_type == ConnectionType::Usb,
        bt.connection_type == ConnectionType::Bluetooth,
        usb.bt_address@ == bt.bt_address@,
        !known_address(ctls, usb.bt_address@),
    ensures
        spec_add_all(ctls, seq![usb, bt]) == ctls.push(spec_merge(usb, bt)),
        spec_add_all(ctls, seq![bt, usb]) == ctls.push(spec_merge(bt, usb)),
        spec_merge(usb, bt).connection_type == ConnectionType::UsbAndBluetooth,
        spec_merge(usb, bt).info.usb_path == usb.info.usb_path,
        spec_merge(usb, bt).info.bt_path == bt.info.bt_path,
        spec_merge(bt, usb).connection_type == ConnectionType::UsbAndBluetooth,
        spec_merge(bt, usb).info.usb_path == usb.info.usb_path,
        spec_merge(bt, usb).info.bt_path == bt.info.bt_path,
{
    let a = usb.bt_address@;
    assert forall|j: int| 0 <= j < ctls.len() implies #[trigger] ctls[j].bt_address@ != a by {
        if ctls[j].bt_address@ == a {
            assert(known_address(ctls, a));
        }
    }
    lemma_index_of_missing(ctls, a, 0);
    let once_usb = ctls.push(usb);
    let once_bt = ctls.push(bt);
    assert forall|j: int| 0 <= j < ctls.len() implies #[trigger] once_usb[j].bt_address@ != a by {
        assert(once_usb[j] == ctls[j]);
    }
    assert forall|j: int| 0 <= j < ctls.len() implies #[trigger] once_bt[j].bt_address@ != a by {
        assert(once_bt[j] == ctls[j]);
    }
    lemma_index_of_found(once_usb, a, 0, ctls.len() as int);
    lemma_index_of_found(once_bt, a, 0, ctls.len() as int);
    assert(seq![usb, bt].drop_last() =~= seq![usb]);
    assert(seq![usb].drop_last() =~= Seq::<PsMoveController<D>>::empty());
    assert(seq![bt, usb].drop_last() =~= seq![bt]);
    assert(seq![bt].drop_last() =~= Seq::<PsMoveController<D>>::empty());
    assert(spec_add_all(ctls, Seq::<PsMoveController<D>>::empty()) == ctls);
    assert(seq![usb].last() == usb);
    assert(seq![bt].last() == bt);
    assert(seq![usb].len() == 1);
    assert(spec_add_all(ctls, seq![usb]) == spec_add_connected(ctls, usb));
    assert(spec_add_all(ctls, seq![bt]) == spec_add_connected(ctls, bt));
    assert(spec_add_all(ctls, seq![usb]) == once_usb);
    assert(spec_add_all(ctls, seq![bt]) == once_bt);
    assert(once_usb.update(ctls.len() as int, spec_merge(usb, bt)) =~= ctls.push(spec_merge(usb, bt)));
    assert(once_bt.update(ctls.len() as int, spec_merge(bt, usb)) =~= ctls.push(spec_merge(bt, usb)));
}

} // verus!
