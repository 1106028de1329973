//! The queryable view of the live controllers.

use vstd::prelude::*;
use crate::controller::PsMoveController;
use crate::led_effects::LedEffectKind;
use crate::models::{BatteryLevel, ConnectionType};
use crate::rumble_effects::RumbleEffectKind;

verus! {

/// Health of the service.
#[derive(Clone, Copy, Debug, PartialEq, Eq, Structural)]
pub enum HealthStatus {
    Healthy,
    Error,
}

/// Outcome of a command handed in from outside.
#[derive(Clone, Copy, Debug, PartialEq, Eq, Structural)]
pub enum MutationResponse {
    Success,
    ServerError,
}

/// Kind of the active LED effect.
#[derive(Clone, Copy, Debug, PartialEq, Eq, Structural)]
pub enum LedEffectType {
    Off,
    Static,
    Breathing,
    Rainbow,
    Blink,
    Candle,
    Bounce,
}

/// Kind of the active rumble effect.
#[derive(Clone, Copy, Debug, PartialEq, Eq, Structural)]
pub enum RumbleEffectType {
    Off,
    Static,
    Breathing,
    Blink,
}

/// One live controller as reported outward.
#[derive(Debug)]
pub struct Controller {
    pub address: String,
    pub battery_level: BatteryLevel,
    pub connection_type: ConnectionType,
    pub current_led_effect: LedEffectType,
    pub current_rumble_effect: RumbleEffectType,
}

/// The kind tag of an LED effect.
pub open spec fn led_type_of(kind: LedEffectKind) -> LedEffectType {
    match kind {
        LedEffectKind::Off => LedEffectType::Off,
        LedEffectKind::Static { .. } => LedEffectType::Static,
        LedEffectKind::Breathing { .. } => LedEffectType::Breathing,
        LedEffectKind::Rainbow { .. } => LedEffectType::Rainbow,
        LedEffectKind::Blink { .. } => LedEffectType::Blink,
        LedEffectKind::Candle { .. } => LedEffectType::Candle,
        LedEffectKind::Bounce { .. } => LedEffectType::Bounce,
    }
}

/// The kind tag of a rumble effect.
pub open spec fn rumble_type_of(kind: RumbleEffectKind) -> RumbleEffectType {
    match kind {
        RumbleEffectKind::Off => RumbleEffectType::Off,
        RumbleEffectKind::Static { .. } => RumbleEffectType::Static,
        RumbleEffectKind::Breathing { .. } => RumbleEffectType::Breathing,
        RumbleEffectKind::Blink { .. } => RumbleEffectType::Blink,
    }
}

/// The service is up.
pub fn health() -> (r: HealthStatus)
    ensures
        r == HealthStatus::Healthy,
{
    HealthStatus::Healthy
}

/// How one controller is reported outward.
pub fn controller_snapshot<D>(ctl: &PsMoveController<D>) -> (r: Controller)
    ensures
        r.address == ctl.bt_address,
        r.battery_level == ctl.battery,
        r.connection_type == ctl.connection_type,
        r.current_led_effect == led_type_of(ctl.led_effect.kind),
        r.current_rumble_effect == rumble_type_of(ctl.rumble_effect.kind),
{
    let current_led_effect = match ctl.led_effect.kind {
        LedEffectKind::Off => LedEffectType::Off,
        LedEffectKind::Static { .. } => LedEffectType::Static,
        LedEffectKind::Breathing { .. } => LedEffectType::Breathing,
        LedEffectKind::Rainbow { .. } => LedEffectType::Rainbow,
        LedEffectKind::Blink { .. } => LedEffectType::Blink,
        LedEffectKind::Candle { .. } => LedEffectType::Candle,
        LedEffectKind::Bounce { .. } => LedEffectType::Bounce,
    };
    let current_rumble_effect = match ctl.rumble_effect.kind {
        RumbleEffectKind::Off => RumbleEffectType::Off,
        RumbleEffectKind::Static { .. } => RumbleEffectType::Static,
        RumbleEffectKind::Breathing { .. } => RumbleEffectType::Breathing,
        RumbleEffectKind::Blink { .. } => RumbleEffectType::Blink,
    };
    Controller {
        address: ctl.bt_address.clone(),
        battery_level: ctl.battery,
        connection_type: ctl.connection_type,
        current_led_effect,
        current_rumble_effect,
    }
}

/// The whole live set as reported outward, in list order.
pub fn list_controllers<D>(controllers: &Vec<PsMoveController<D>>) -> (r: Vec<Controller>)
    ensures
        r@.len() == controllers@.len(),
        forall|i: int| 0 <= i < controllers@.len() ==> {
            &&& (#[trigger] r@[i]).address == controllers@[i].bt_address
            &&& r@[i].battery_level == controllers@[i].battery
            &&& r@[i].connection_type == controllers@[i].connection_type
            &&& r@[i].current_led_effect == led_type_of(controllers@[i].led_effect.kind)
            &&& r@[i].current_rumble_effect == rumble_type_of(controllers@[i].rumble_effect.kind)
        },
{
    let mut r: Vec<Controller> = Vec::new();
    let mut i: usize = 0;
    while i < controllers.len()
        invariant
            i <= controllers@.len(),
            r@.len() == i,
            forall|j: int| 0 <= j < i ==> {
                &&& (#[trigger] r@[j]).address == controllers@[j].bt_address
                &&& r@[j].battery_level == controllers@[j].battery
                &&& r@[j].connection_type == controllers@[j].connection_type
                &&& r@[j].current_led_effect == led_type_of(controllers@[j].led_effect.kind)
                &&& r@[j].current_rumble_effect == rumble_type_of(controllers@[j].rumble_effect.kind)
            },
        decreases controllers@.len() - i,
    {
        r.push(controller_snapshot(&controllers[i]));
        i = i + 1;
    }
    r
}

} // verus!
