//! The runtime state of one controller: its identity, its active effects and
//! actuator values, and the telemetry decoded from its input reports.

use vstd::prelude::*;
use crate::color::{Hsv, UNIT};
use crate::led_effects::{spec_advance, spec_initial_hsv, LedEffect, LedEffectKind};
use crate::models::{
    battery_of, button_at, button_states_of, fill_state_from_byte_slice, BatteryLevel, ButtonChange,
    ButtonState, ConnectionType, ControllerInfo, BUTTON_COUNT, REQUEST_GET_INPUT,
};
use crate::report::{build_set_led_and_rumble_request, strength_byte, DataInput};
use crate::rumble_effects::{spec_initial_rumble, spec_rumble_advance, RumbleEffect};

verus! {

/// The actuator values: the LED colour and rumble strength now, and the ones
/// before the last effect change (for a revert).
#[derive(Clone, Copy, Debug, PartialEq, Eq, Structural)]
pub struct MoveSetting {
    pub led: Hsv,
    pub last_led: Hsv,
    pub rumble: u32,
    pub last_rumble: u32,
}

/// The buttons whose state differs between the two snapshots, in the order of
/// `button_at`, among the first `n` positions.
pub open spec fn changed_buttons(last: Seq<ButtonState>, cur: Seq<ButtonState>, n: int) -> Seq<ButtonChange>
    decreases n,
{
    if n <= 0 {
        Seq::empty()
    } else {
        let prev = changed_buttons(last, cur, n - 1);
        if cur[n - 1] != last[n - 1] {
            prev.push(ButtonChange { button: button_at(n - 1), state: cur[n - 1] })
        } else {
            prev
        }
    }
}

/// The controller after `effect` becomes its LED effect (the previous effect
/// and colour are kept for a revert).
pub open spec fn spec_set_led<D>(c: PsMoveController<D>, effect: LedEffect) -> PsMoveController<D> {
    PsMoveController {
        last_led_effect: c.led_effect,
        led_effect: effect,
        setting: MoveSetting { led: spec_initial_hsv(effect.kind), last_led: c.setting.led, ..c.setting },
        ..c
    }
}

/// The controller after a revert at `now`: current and previous LED effect
/// and colour swap places, and a restored effect that has run out becomes Off.
pub open spec fn spec_revert<D>(c: PsMoveController<D>, now: u64) -> PsMoveController<D> {
    if c.last_led_effect.expired_at(now) {
        PsMoveController {
            last_led_effect: c.led_effect,
            led_effect: LedEffect::off_spec(now),
            setting: MoveSetting { led: Hsv::off_spec(), last_led: c.setting.led, ..c.setting },
            ..c
        }
    } else {
        PsMoveController {
            last_led_effect: c.led_effect,
            led_effect: c.last_led_effect,
            setting: MoveSetting { led: c.setting.last_led, last_led: c.setting.led, ..c.setting },
            ..c
        }
    }
}

/// The controller after `effect` becomes its rumble effect.
pub open spec fn spec_set_rumble<D>(c: PsMoveController<D>, effect: RumbleEffect) -> PsMoveController<D> {
    PsMoveController {
        last_rumble_effect: c.rumble_effect,
        rumble_effect: effect,
        setting: MoveSetting { rumble: spec_initial_rumble(effect.kind), last_rumble: c.setting.rumble, ..c.setting },
        ..c
    }
}

/// The controller after taking over from `other` the transport it lacks; it
/// is then reachable over both.
pub open spec fn spec_merge<D>(c: PsMoveController<D>, other: PsMoveController<D>) -> PsMoveController<D> {
    PsMoveController {
        info: ControllerInfo {
            serial_number: c.info.serial_number,
            bt_path: if c.connection_type == ConnectionType::Usb { other.info.bt_path } else { c.info.bt_path },
            usb_path: if c.connection_type == ConnectionType::Bluetooth {
                other.info.usb_path
            } else {
                c.info.usb_path
            },
        },
        connection_type: ConnectionType::UsbAndBluetooth,
        ..c
    }
}

/// The controller after one LED effect tick at `now` with candle sample
/// `sample`: an effect that has run out is replaced by Off as
/// `spec_set_led` does; otherwise the effect advances.
pub open spec fn spec_led_tick<D>(c: PsMoveController<D>, now: u64, sample: i64) -> PsMoveController<D> {
    if c.led_effect.expired_at(now) {
        spec_set_led(c, LedEffect::off_spec(now))
    } else {
        let (kind, led) = spec_advance(c.led_effect.kind, c.setting.led, now, sample);
        PsMoveController {
            led_effect: LedEffect { kind, ..c.led_effect },
            setting: MoveSetting { led, ..c.setting },
            ..c
        }
    }
}

/// The controller after one rumble effect tick at `now`: an effect that has
/// run out is replaced by Off as `spec_set_rumble` does; otherwise the effect
/// advances.
pub open spec fn spec_rumble_tick<D>(c: PsMoveController<D>, now: u64) -> PsMoveController<D> {
    if c.rumble_effect.expired_at(now) {
        spec_set_rumble(c, RumbleEffect::off_spec(now))
    } else {
        let (kind, rumble) = spec_rumble_advance(c.rumble_effect.kind, c.setting.rumble, now);
        PsMoveController {
            rumble_effect: RumbleEffect { kind, ..c.rumble_effect },
            setting: MoveSetting { rumble, ..c.setting },
            ..c
        }
    }
}

/// Message of the write error that an overlapped operation still in flight
/// causes on some platforms after a connection drop.
pub const OVERLAPPED_IO_IN_PROGRESS: &'static str = "Overlapped I/O operation is in progress.";

/// Whether a failed device write means the controller is gone: every failure
/// does but the transient overlapped-I/O error, which is ignored (the write
/// is retried on the next tick). `message` is the text the error carries, if
/// any.
pub fn write_failure_disconnects(message: &Option<String>) -> (r: bool)
    ensures
        r == !(message matches Some(m) && m@ == OVERLAPPED_IO_IN_PROGRESS@),
{
    match message {
        Some(m) => {
            let transient = OVERLAPPED_IO_IN_PROGRESS.to_owned();
            !(*m == transient)
        },
        None => true,
    }
}

/// One live controller. It owns its device handle `device`, which only the
/// caller's I/O touches.
pub struct PsMoveController<D> {
    pub device: D,
    pub info: ControllerInfo,
    /// Identity used by every outside reference to the controller.
    pub bt_address: String,
    pub last_led_effect: LedEffect,
    pub led_effect: LedEffect,
    pub last_rumble_effect: RumbleEffect,
    pub rumble_effect: RumbleEffect,
    pub setting: MoveSetting,
    pub last_battery: BatteryLevel,
    pub battery: BatteryLevel,
    /// Previous button snapshot, one entry per position of `button_at`
    /// (empty until two reports have been read).
    pub last_button_state: Vec<ButtonState>,
    /// Current button snapshot (empty until a report has been read).
    pub button_state: Vec<ButtonState>,
    /// Mean of the two trigger frames, in tenths of a step (0 to 2550).
    pub trigger: u16,
    pub connection_type: ConnectionType,
}

impl<D> PsMoveController<D> {
    /// LED effects well formed (see `LedEffectKind::wf`); snapshots empty or
    /// complete.
    pub open spec fn wf(&self) -> bool {
        &&& self.led_effect.wf()
        &&& self.last_led_effect.wf()
        &&& (self.button_state@.len() == 0 || self.button_state@.len() == BUTTON_COUNT)
        &&& (self.last_button_state@.len() == 0 || self.last_button_state@.len() == BUTTON_COUNT)
        &&& (self.last_button_state@.len() == BUTTON_COUNT ==> self.button_state@.len() == BUTTON_COUNT)
    }

    /// The raw entry `info` was seen on a transport this controller uses.
    pub open spec fn spec_same_device(&self, info: ControllerInfo) -> bool {
        match self.connection_type {
            ConnectionType::Usb => self.info.usb_path@ == info.usb_path@,
            ConnectionType::Bluetooth => self.info.bt_path@ == info.bt_path@,
            ConnectionType::UsbAndBluetooth => {
                self.info.usb_path@ == info.usb_path@ || self.info.bt_path@ == info.bt_path@
            },
        }
    }

    /// A freshly opened controller: everything off, telemetry unknown.
    pub fn new(
        device: D,
        serial_number: &str,
        bt_path: String,
        usb_path: String,
        bt_address: String,
        connection_type: ConnectionType,
        now: u64,
    ) -> (r: PsMoveController<D>)
        ensures
            r.wf(),
            r.device == device,
            r.info.serial_number@ == serial_number@,
            r.info.bt_path == bt_path,
            r.info.usb_path == usb_path,
            r.bt_address == bt_address,
            r.connection_type == connection_type,
            r.led_effect == LedEffect::off_spec(now),
            r.last_led_effect == LedEffect::off_spec(now),
            r.rumble_effect == RumbleEffect::off_spec(now),
            r.last_rumble_effect == RumbleEffect::off_spec(now),
            r.setting == (MoveSetting { led: Hsv::off_spec(), last_led: Hsv::off_spec(), rumble: 0, last_rumble: 0 }),
            r.battery == BatteryLevel::Unknown,
            r.last_battery == BatteryLevel::Unknown,
            r.button_state@.len() == 0,
            r.last_button_state@.len() == 0,
            r.trigger == 0,
    {
        let info = ControllerInfo::new(serial_number.to_owned(), bt_path, usb_path);
        PsMoveController {
            device,
            info,
            bt_address,
            last_led_effect: LedEffect::off(now),
            led_effect: LedEffect::off(now),
            last_rumble_effect: RumbleEffect::off(now),
            rumble_effect: RumbleEffect::off(now),
            setting: MoveSetting { led: Hsv::off(), last_led: Hsv::off(), rumble: 0, last_rumble: 0 },
            last_battery: BatteryLevel::Unknown,
            battery: BatteryLevel::Unknown,
            last_button_state: Vec::new(),
            button_state: Vec::new(),
            trigger: 0,
            connection_type,
        }
    }

    /// Whether the raw entry `info` was seen on a transport this controller uses.
    pub fn is_same_device(&self, info: &ControllerInfo) -> (r: bool)
        ensures
            r == self.spec_same_device(*info),
    {
        match self.connection_type {
            ConnectionType::Usb => self.info.usb_path == info.usb_path,
            ConnectionType::Bluetooth => self.info.bt_path == info.bt_path,
            ConnectionType::UsbAndBluetooth => {
                self.info.usb_path == info.usb_path || self.info.bt_path == info.bt_path
            },
        }
    }

    /// Takes over the transport this controller lacks from `other` and
    /// becomes reachable over both. Merging two controllers reachable the
    /// same way is a caller error.
    pub fn merge_with(&mut self, other: &PsMoveController<D>)
        requires
            old(self).connection_type != other.connection_type,
        ensures
            *final(self) == spec_merge(*old(self), *other),
    {
        if self.connection_type == ConnectionType::Usb {
            self.info.bt_path = other.info.bt_path.clone();
        } else if self.connection_type == ConnectionType::Bluetooth {
            self.info.usb_path = other.info.usb_path.clone();
        }
        self.connection_type = ConnectionType::UsbAndBluetooth;
    }

    /// Makes `effect` active with its initial colour, keeping the previous
    /// effect and colour for a revert.
    pub fn set_led_effect(&mut self, effect: LedEffect)
        requires
            old(self).wf(),
            effect.wf(),
        ensures
            final(self).wf(),
            *final(self) == spec_set_led(*old(self), effect),
    {
        let led = effect.kind.get_initial_hsv();
        let mut previous = effect;
        core::mem::swap(&mut self.led_effect, &mut previous);
        self.last_led_effect = previous;
        self.setting.last_led = self.setting.led;
        self.setting.led = led;
    }

    /// Makes `effect` active at colour `hsv` (to join an animation already
    /// under way elsewhere); the previous effect is not kept.
    pub fn set_led_effect_with_hsv(&mut self, effect: LedEffect, hsv: Hsv)
        ensures
            *final(self) == (PsMoveController {
                led_effect: effect,
                setting: MoveSetting { led: hsv, ..old(self).setting },
                ..*old(self)
            }),
    {
        self.setting.led = hsv;
        self.led_effect = effect;
    }

    /// Swaps the current and previous LED effects and colours. A restored
    /// effect that has already run out is replaced by Off. Returns whether
    /// that replacement happened.
    pub fn revert_led_effect(&mut self, now: u64) -> (went_off: bool)
        requires
            old(self).wf(),
        ensures
            final(self).wf(),
            went_off == old(self).last_led_effect.expired_at(now),
            *final(self) == spec_revert(*old(self), now),
    {
        core::mem::swap(&mut self.led_effect, &mut self.last_led_effect);
        let current_led = self.setting.led;
        self.setting.led = self.setting.last_led;
        self.setting.last_led = current_led;
        if self.led_effect.has_expired(now) {
            self.led_effect = LedEffect::off(now);
            self.setting.led = Hsv::off();
            true
        } else {
            false
        }
    }

    /// Makes `effect` active with its initial strength, keeping the previous
    /// effect and strength.
    pub fn set_rumble_effect(&mut self, effect: RumbleEffect)
        requires
            old(self).wf(),
        ensures
            final(self).wf(),
            *final(self) == spec_set_rumble(*old(self), effect),
    {
        let rumble = effect.kind.get_initial_rumble();
        self.last_rumble_effect = self.rumble_effect;
        self.rumble_effect = effect;
        self.setting.last_rumble = self.setting.rumble;
        self.setting.rumble = rumble;
    }

    /// One effect tick for the LED. An effect that has run out is replaced by
    /// Off (as `set_led_effect` does); otherwise the effect advances. Returns
    /// whether the effect had run out.
    pub fn transform_led(&mut self, now: u64) -> (expired: bool)
        requires
            old(self).wf(),
        ensures
            final(self).wf(),
            expired == old(self).led_effect.expired_at(now),
            exists|sample: i64| #[trigger] old(self).led_effect.kind.sample_fits(sample)
                && *final(self) == spec_led_tick(*old(self), now, sample),
    {
        if self.led_effect.has_expired(now) {
            self.set_led_effect(LedEffect::off(now));
            proof {
                let witness: i64 = match old(self).led_effect.kind {
                    LedEffectKind::Candle { sample_low, .. } => sample_low,
                    _ => 0,
                };
                assert(old(self).led_effect.kind.sample_fits(witness));
            }
            true
        } else {
            let current = self.setting.led;
            let led = self.led_effect.kind.get_updated_hsv(current, now);
            self.setting.led = led;
            false
        }
    }

    /// One effect tick for the rumble. An effect that has run out is replaced
    /// by Off (as `set_rumble_effect` does); otherwise the effect advances.
    /// Returns whether the effect had run out.
    pub fn transform_rumble(&mut self, now: u64) -> (expired: bool)
        requires
            old(self).wf(),
        ensures
            final(self).wf(),
            expired == old(self).rumble_effect.expired_at(now),
            *final(self) == spec_rumble_tick(*old(self), now),
    {
        if self.rumble_effect.has_expired(now) {
            self.set_rumble_effect(RumbleEffect::off(now));
            true
        } else {
            let current = self.setting.rumble;
            let rumble = self.rumble_effect.kind.get_updated_rumble(current, now);
            self.setting.rumble = rumble;
            false
        }
    }

    /// The actuator command for the current values, given the LED colour as
    /// red, green and blue.
    pub fn build_update_request(&self, rgb: [u8; 3]) -> (r: [u8; 8])
        requires
            self.wf(),
        ensures
            r@ == seq![
                crate::models::REQUEST_SET_LED,
                0u8,
                rgb@[0],
                rgb@[1],
                rgb@[2],
                0u8,
                strength_byte(self.setting.rumble as int) as u8,
                0u8,
            ],
    {
        build_set_led_and_rumble_request(rgb, self.setting.rumble)
    }

    /// Records the battery code of a report. Returns whether the level
    /// changed (the previous level is then kept in `last_battery`).
    pub fn update_battery(&mut self, byte: u8) -> (changed: bool)
        ensures
            changed == (battery_of(byte) != old(self).battery),
            changed ==> *final(self) == (PsMoveController {
                battery: battery_of(byte),
                last_battery: old(self).battery,
                ..*old(self)
            }),
            !changed ==> *final(self) == *old(self),
    {
        let current = BatteryLevel::from_byte(byte);
        if current != self.battery {
            self.last_battery = self.battery;
            self.battery = current;
            true
        } else {
            false
        }
    }

    /// Moves the current button snapshot to the previous one and decodes the
    /// new one from the four button bytes.
    pub fn update_button_state(&mut self, bytes: [u8; 4])
        requires
            old(self).wf(),
        ensures
            final(self).wf(),
            final(self).last_button_state@ == old(self).button_state@,
            final(self).button_state@ == button_states_of(bytes@),
            *final(self) == (PsMoveController {
                last_button_state: final(self).last_button_state,
                button_state: final(self).button_state,
                ..*old(self)
            }),
    {
        let previous = self.button_state.clone();
        assert(previous@ =~= self.button_state@);
        self.last_button_state = previous;
        fill_state_from_byte_slice(&mut self.button_state, bytes);
    }

    /// Takes in an input report read from the device. A telemetry report
    /// updates battery, buttons and trigger; any other report is ignored.
    /// Returns whether the battery level changed.
    pub fn apply_input_report(&mut self, report: [u8; 44]) -> (battery_changed: bool)
        requires
            old(self).wf(),
        ensures
            final(self).wf(),
            report@[0] != REQUEST_GET_INPUT ==> *final(self) == *old(self) && !battery_changed,
            report@[0] == REQUEST_GET_INPUT ==> {
                &&& battery_changed == (battery_of(report@[12]) != old(self).battery)
                &&& final(self).battery == battery_of(report@[12])
                &&& final(self).last_battery == if battery_changed {
                    old(self).battery
                } else {
                    old(self).last_battery
                }
                &&& final(self).last_button_state@ == old(self).button_state@
                &&& final(self).button_state@ == button_states_of(
                    seq![report@[1], report@[2], report@[3], report@[4]],
                )
                &&& final(self).trigger == (report@[5] + report@[6]) * 5
                &&& *final(self) == (PsMoveController {
                    battery: final(self).battery,
                    last_battery: final(self).last_battery,
                    last_button_state: final(self).last_button_state,
                    button_state: final(self).button_state,
                    trigger: final(self).trigger,
                    ..*old(self)
                })
            },
    {
        if report[0] != REQUEST_GET_INPUT {
            return false;
        }
        let data = DataInput::new(report);
        let changed = self.update_battery(data.battery);
        self.update_button_state(data.get_button_slice());
        self.trigger = data.get_trigger();
        changed
    }

    /// The buttons whose state differs between the two latest snapshots
    /// (none before two reports have been read).
    pub fn get_changed_buttons(&self) -> (r: Vec<ButtonChange>)
        requires
            self.wf(),
        ensures
            self.last_button_state@.len() == 0 ==> r@.len() == 0,
            self.last_button_state@.len() != 0 ==> r@ == changed_buttons(
                self.last_button_state@,
                self.button_state@,
                BUTTON_COUNT as int,
            ),
    {
        let mut r: Vec<ButtonChange> = Vec::new();
        if self.last_button_state.len() == 0 {
            return r;
        }
        let mut i: usize = 0;
        while i < BUTTON_COUNT
            invariant
                i <= BUTTON_COUNT,
                self.last_button_state@.len() == BUTTON_COUNT,
                self.button_state@.len() == BUTTON_COUNT,
                r@ == changed_buttons(self.last_button_state@, self.button_state@, i as int),
            decreases BUTTON_COUNT - i,
        {
            let current = self.button_state[i];
            if current != self.last_button_state[i] {
                r.push(ButtonChange { button: crate::models::Button::from_index(i), state: current });
            }
            i = i + 1;
        }
        r
    }
}

/// Reverting to an effect that has already run out yields Off (dark), never
/// the stale effect.
pub proof fn lemma_revert_of_expired_is_off<D>(c: PsMoveController<D>, now: u64)
    requires
        c.last_led_effect.expired_at(now),
    ensures
        spec_revert(c, now).led_effect == LedEffect::off_spec(now),
        spec_revert(c, now).led_effect.kind is Off,
        spec_revert(c, now).setting.led == Hsv::off_spec(),
{
}

} // verus!
