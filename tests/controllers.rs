use ps_move_server::color::Hsv;
use ps_move_server::controller::{write_failure_disconnects, PsMoveController};
use ps_move_server::led_effects::{LedEffect, LedEffectKind};
use ps_move_server::models::{BatteryLevel, Button, ButtonChange, ButtonState, ConnectionType};
use ps_move_server::rumble_effects::{RumbleEffect, RumbleEffectKind};
use ps_move_server::snapshot::{controller_snapshot, health, list_controllers, HealthStatus, LedEffectType, RumbleEffectType};

fn usb_controller(address: &str, usb_path: &str) -> PsMoveController<()> {
    PsMoveController::new((), "", String::new(), String::from(usb_path), String::from(address), ConnectionType::Usb, 0)
}

fn bt_controller(address: &str, bt_path: &str) -> PsMoveController<()> {
    PsMoveController::new((), address, String::from(bt_path), String::new(), String::from(address), ConnectionType::Bluetooth, 0)
}

fn report(battery: u8, buttons: [u8; 4]) -> [u8; 44] {
    let mut r = [0u8; 44];
    r[0] = 0x01;
    r[1..5].copy_from_slice(&buttons);
    r[12] = battery;
    r
}

#[test]
fn battery_transitions_are_reported_once() {
    let mut ctl = bt_controller("AA:BB:CC:DD:EE:FF", "/bt/1");
    assert_eq!(ctl.battery, BatteryLevel::Unknown);
    assert!(ctl.apply_input_report(report(0xEE, [0; 4])));
    assert_eq!(ctl.battery, BatteryLevel::Charging);
    assert_eq!(ctl.last_battery, BatteryLevel::Unknown);
    assert!(!ctl.apply_input_report(report(0xEE, [0; 4])));
    assert!(ctl.apply_input_report(report(0x05, [0; 4])));
    assert_eq!(ctl.battery, BatteryLevel::Full);
    assert_eq!(ctl.last_battery, BatteryLevel::Charging);
    assert!(!ctl.apply_input_report(report(0x05, [0; 4])));
}

#[test]
fn other_reports_are_ignored() {
    let mut ctl = bt_controller("AA", "/bt/1");
    let mut r = report(0x05, [0xff; 4]);
    r[0] = 0x02;
    assert!(!ctl.apply_input_report(r));
    assert_eq!(ctl.battery, BatteryLevel::Unknown);
    assert!(ctl.button_state.is_empty());
}

#[test]
fn button_edges_between_snapshots() {
    let mut ctl = bt_controller("AA", "/bt/1");
    assert!(ctl.get_changed_buttons().is_empty());
    ctl.apply_input_report(report(0x05, [0, 0, 0, 0]));
    assert!(ctl.get_changed_buttons().is_empty());
    ctl.apply_input_report(report(0x05, [0b0001_0000, 0, 0, 0b1000_0000]));
    assert_eq!(
        ctl.get_changed_buttons(),
        vec![
            ButtonChange { button: Button::Start, state: ButtonState::Pressed },
            ButtonChange { button: Button::Trigger, state: ButtonState::Pressed },
        ]
    );
    ctl.apply_input_report(report(0x05, [0b0001_0000, 0, 0, 0]));
    assert_eq!(ctl.get_changed_buttons(), vec![ButtonChange { button: Button::Trigger, state: ButtonState::Released }]);
    ctl.apply_input_report(report(0x05, [0b0001_0000, 0, 0, 0]));
    assert!(ctl.get_changed_buttons().is_empty());
}

#[test]
fn trigger_is_averaged() {
    let mut ctl = bt_controller("AA", "/bt/1");
    let mut r = report(0x05, [0; 4]);
    r[5] = 10;
    r[6] = 31;
    ctl.apply_input_report(r);
    assert_eq!(ctl.trigger, 205);
}

#[test]
fn set_led_effect_keeps_previous() {
    let mut ctl = bt_controller("AA", "/bt/1");
    let color = Hsv::new(120000, 1000, 500);
    ctl.set_led_effect(LedEffect::new(LedEffectKind::Static { hsv: color }, 10));
    assert_eq!(ctl.setting.led, color);
    assert!(ctl.last_led_effect.is_off());
    assert_eq!(ctl.setting.last_led, Hsv::off());
    let breathing = LedEffectKind::new_timed_breathing(Hsv::new(0, 1000, 100), 1000, 800, 20);
    ctl.set_led_effect(LedEffect::new(breathing, 20));
    assert_eq!(ctl.setting.led, Hsv::new(0, 1000, 100));
    assert_eq!(ctl.setting.last_led, color);
    assert!(matches!(ctl.last_led_effect.kind, LedEffectKind::Static { .. }));
}

#[test]
fn revert_restores_previous_effect() {
    let mut ctl = bt_controller("AA", "/bt/1");
    let color = Hsv::new(120000, 1000, 500);
    ctl.set_led_effect(LedEffect::new(LedEffectKind::Static { hsv: color }, 10));
    ctl.set_led_effect(LedEffect::new(LedEffectKind::Static { hsv: Hsv::new(0, 1000, 1000) }, 20));
    assert!(!ctl.revert_led_effect(30));
    assert_eq!(ctl.setting.led, color);
    assert!(matches!(ctl.led_effect.kind, LedEffectKind::Static { hsv } if hsv == color));
}

#[test]
fn reverting_to_expired_effect_gives_off() {
    let mut ctl = bt_controller("AA", "/bt/1");
    let color = Hsv::new(120000, 1000, 500);
    ctl.set_led_effect(LedEffect::new_expiring(LedEffectKind::Static { hsv: color }, 100, 0));
    ctl.set_led_effect(LedEffect::new(LedEffectKind::Static { hsv: Hsv::new(0, 1000, 1000) }, 50));
    assert!(ctl.revert_led_effect(150));
    assert!(ctl.led_effect.is_off());
    assert_eq!(ctl.setting.led, Hsv::off());
    assert!(matches!(ctl.last_led_effect.kind, LedEffectKind::Static { .. }));
}

#[test]
fn expired_effect_turns_off_on_tick() {
    let mut ctl = bt_controller("AA", "/bt/1");
    let color = Hsv::new(120000, 1000, 500);
    ctl.set_led_effect(LedEffect::new_expiring(LedEffectKind::Static { hsv: color }, 100, 0));
    assert!(!ctl.transform_led(99));
    assert_eq!(ctl.setting.led, color);
    assert!(ctl.transform_led(100));
    assert!(ctl.led_effect.is_off());
    assert_eq!(ctl.setting.led, Hsv::off());
    assert!(ctl.revert_led_effect(101));
    assert!(ctl.led_effect.is_off());
}

#[test]
fn rumble_effect_and_expiry() {
    let mut ctl = bt_controller("AA", "/bt/1");
    ctl.set_rumble_effect(RumbleEffect::new_expiring(RumbleEffectKind::Static { strength: 600 }, 50, 0));
    assert_eq!(ctl.setting.rumble, 600);
    assert_eq!(ctl.build_update_request([1, 2, 3]), [0x06, 0, 1, 2, 3, 0, 153, 0]);
    assert!(!ctl.transform_rumble(10));
    assert_eq!(ctl.setting.rumble, 600);
    assert!(ctl.transform_rumble(50));
    assert_eq!(ctl.setting.rumble, 0);
    assert_eq!(ctl.setting.last_rumble, 600);
}

#[test]
fn same_device_by_transport() {
    let usb = usb_controller("AA", "/usb/1");
    let bt = bt_controller("AA", "/bt/1");
    assert!(usb.is_same_device(&usb.info));
    assert!(!usb.is_same_device(&bt.info));
    assert!(bt.is_same_device(&bt.info));
    let mut dual = usb_controller("AA", "/usb/1");
    dual.merge_with(&bt);
    assert_eq!(dual.connection_type, ConnectionType::UsbAndBluetooth);
    assert_eq!(dual.info.usb_path, "/usb/1");
    assert_eq!(dual.info.bt_path, "/bt/1");
    assert!(dual.is_same_device(&bt.info));
    assert!(dual.is_same_device(&usb.info));
}

#[test]
fn bluetooth_merges_usb_path() {
    let usb = usb_controller("AA", "/usb/1");
    let mut bt = bt_controller("AA", "/bt/1");
    bt.merge_with(&usb);
    assert_eq!(bt.connection_type, ConnectionType::UsbAndBluetooth);
    assert_eq!(bt.info.usb_path, "/usb/1");
    assert_eq!(bt.info.bt_path, "/bt/1");
}

#[test]
fn snapshot_reports_live_set() {
    let mut ctl = bt_controller("AA", "/bt/1");
    ctl.set_led_effect(LedEffect::new(LedEffectKind::new_bounce(vec![0, 90000], 1000, 1000, 10), 0));
    ctl.set_rumble_effect(RumbleEffect::new(RumbleEffectKind::Static { strength: 10 }, 0));
    ctl.apply_input_report(report(0xEF, [0; 4]));
    let snap = controller_snapshot(&ctl);
    assert_eq!(snap.address, "AA");
    assert_eq!(snap.battery_level, BatteryLevel::Charged);
    assert_eq!(snap.connection_type, ConnectionType::Bluetooth);
    assert_eq!(snap.current_led_effect, LedEffectType::Bounce);
    assert_eq!(snap.current_rumble_effect, RumbleEffectType::Static);
    let all = list_controllers(&vec![ctl, usb_controller("BB", "/usb/2")]);
    assert_eq!(all.len(), 2);
    assert_eq!(all[1].address, "BB");
    assert_eq!(all[1].current_led_effect, LedEffectType::Off);
    assert_eq!(health(), HealthStatus::Healthy);
}

#[test]
fn out_of_range_effects_are_kept() {
    let mut ctl = bt_controller("AA", "/bt/1");
    let odd = Hsv { hue: 400000, saturation: 1500, value: 2000 };
    let kind = LedEffectKind::Static { hsv: odd };
    assert!(kind.has_out_of_range_parameters());
    ctl.set_led_effect(LedEffect::new(kind, 0));
    assert_eq!(ctl.setting.led, odd);
    assert!(!ctl.transform_led(1));
    assert_eq!(ctl.setting.led, odd);
    let strong = RumbleEffectKind::Static { strength: 1500 };
    assert!(strong.has_out_of_range_parameters());
    ctl.set_rumble_effect(RumbleEffect::new(strong, 0));
    assert_eq!(ctl.setting.rumble, 1500);
    assert_eq!(ctl.build_update_request([0, 0, 0])[6], 255);
    let mut breathing = RumbleEffectKind::Breathing { initial_strength: 2000, step: 3000, peak: 5000, inhaling: true };
    assert_eq!(breathing.get_initial_rumble(), 2000);
    assert_eq!(breathing.get_updated_rumble(2000, 0), 5000);
}

#[test]
fn write_errors_other_than_overlapped_io_disconnect() {
    assert!(!write_failure_disconnects(&Some(String::from("Overlapped I/O operation is in progress."))));
    assert!(write_failure_disconnects(&Some(String::from("Device disconnected"))));
    assert!(write_failure_disconnects(&None));
}
