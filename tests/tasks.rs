use ps_move_server::api::{
    controller_from_plan, get_connected_controllers, get_disconnected_controllers, is_move_controller, list,
    list_psmove_devices, plan_connection, replace_all, sibling_collection_path, HidDeviceEntry, ListingResult,
};
use ps_move_server::color::Hsv;
use ps_move_server::controller::PsMoveController;
use ps_move_server::led_effects::{LedEffect, LedEffectKind};
use ps_move_server::models::{ConnectionType, ControllerInfo};
use ps_move_server::rumble_effects::{RumbleEffect, RumbleEffectKind};
use ps_move_server::tasks::{
    add_connected_controllers, apply_effect_change, get_on_connected_effect, on_startup_effect, reconcile_controllers,
    remove_controllers_by_address, remove_disconnected_controllers, seed_new_controller, tick_effects,
    update_changed_controllers, EffectChange, EffectChangeType, EffectTarget, InitialLedState, ShutdownSignal,
};

fn usb_controller(address: &str, usb_path: &str) -> PsMoveController<()> {
    PsMoveController::new((), "", String::new(), String::from(usb_path), String::from(address), ConnectionType::Usb, 0)
}

fn bt_controller(address: &str, bt_path: &str) -> PsMoveController<()> {
    PsMoveController::new((), address, String::from(bt_path), String::new(), String::from(address), ConnectionType::Bluetooth, 0)
}

fn entry(serial: &str, path: &str) -> HidDeviceEntry {
    HidDeviceEntry { vendor_id: 0x054c, product_id: 0x03d5, serial_number: String::from(serial), path: String::from(path) }
}

#[test]
fn static_for_all_reaches_every_controller() {
    let mut controllers = vec![bt_controller("AA", "/bt/1"), usb_controller("BB", "/usb/2")];
    let mut initial = InitialLedState::from(on_startup_effect(0));
    let color = Hsv::new(120000, 1000, 500);
    let change = EffectChange {
        target: EffectTarget::All,
        effect: EffectChangeType::Led { effect: LedEffect::new(LedEffectKind::Static { hsv: color }, 5) },
    };
    let unknown = apply_effect_change(&mut controllers, &mut initial, &change, 5);
    assert!(unknown.is_empty());
    for ctl in &controllers {
        assert_eq!(ctl.setting.led, Hsv { hue: 120000, saturation: 1000, value: 500 });
        assert!(matches!(ctl.led_effect.kind, LedEffectKind::Static { .. }));
    }
    assert!(matches!(initial.effect.kind, LedEffectKind::Static { hsv } if hsv == color));
    assert_eq!(initial.hsv, color);
    tick_effects(&mut controllers, &mut initial, 6);
    assert_eq!(controllers[0].setting.led, color);
}

#[test]
fn unknown_address_changes_nothing() {
    let mut controllers = vec![bt_controller("AA", "/bt/1")];
    let mut initial = InitialLedState::from(on_startup_effect(0));
    let initial_hsv = initial.hsv;
    let change = EffectChange {
        target: EffectTarget::Only { bt_addresses: vec![String::from("nonexistent")] },
        effect: EffectChangeType::Led { effect: LedEffect::new(LedEffectKind::Static { hsv: Hsv::new(0, 1000, 1000) }, 5) },
    };
    let unknown = apply_effect_change(&mut controllers, &mut initial, &change, 5);
    assert_eq!(unknown, vec![String::from("nonexistent")]);
    assert!(controllers[0].led_effect.is_off());
    assert_eq!(controllers[0].setting.led, Hsv::off());
    assert_eq!(initial.hsv, initial_hsv);
    assert!(matches!(initial.effect.kind, LedEffectKind::Breathing { .. }));
}

#[test]
fn only_target_applies_to_listed_and_reports_rest() {
    let mut controllers = vec![bt_controller("AA", "/bt/1"), bt_controller("BB", "/bt/2")];
    let mut initial = InitialLedState::from(on_startup_effect(0));
    let change = EffectChange {
        target: EffectTarget::Only { bt_addresses: vec![String::from("ZZ"), String::from("BB")] },
        effect: EffectChangeType::Rumble { effect: RumbleEffect::new(RumbleEffectKind::Static { strength: 700 }, 1) },
    };
    let unknown = apply_effect_change(&mut controllers, &mut initial, &change, 1);
    assert_eq!(unknown, vec![String::from("ZZ")]);
    assert_eq!(controllers[0].setting.rumble, 0);
    assert_eq!(controllers[1].setting.rumble, 700);
    let revert = EffectChange { target: EffectTarget::Only { bt_addresses: vec![String::from("AA")] }, effect: EffectChangeType::RevertLed };
    apply_effect_change(&mut controllers, &mut initial, &revert, 2);
    assert!(controllers[0].led_effect.is_off());
}

#[test]
fn default_effect_animates_like_a_controller() {
    let mut controllers: Vec<PsMoveController<()>> = Vec::new();
    let breathing = LedEffectKind::new_timed_breathing(Hsv::new(0, 1000, 100), 1000, 800, 0);
    let mut initial = InitialLedState::from(LedEffect::new(breathing, 0));
    for now in 1..=1000u64 {
        tick_effects(&mut controllers, &mut initial, now);
    }
    assert_eq!(initial.hsv.value, 800);
    assert!(matches!(initial.effect.kind, LedEffectKind::Breathing { inhaling: false, .. }));
}

#[test]
fn breathing_on_controller_reaches_peak() {
    let mut controllers = vec![bt_controller("AA", "/bt/1")];
    let mut initial = InitialLedState::from(on_startup_effect(0));
    let breathing = LedEffectKind::new_timed_breathing(Hsv::new(0, 1000, 100), 1000, 800, 0);
    let change = EffectChange { target: EffectTarget::All, effect: EffectChangeType::Led { effect: LedEffect::new(breathing, 0) } };
    apply_effect_change(&mut controllers, &mut initial, &change, 0);
    for now in 1..=1000u64 {
        tick_effects(&mut controllers, &mut initial, now);
    }
    assert_eq!(controllers[0].setting.led.value, 800);
    assert!(matches!(controllers[0].led_effect.kind, LedEffectKind::Breathing { inhaling: false, .. }));
    assert_eq!(initial.hsv.value, 800);
}

#[test]
fn startup_and_connect_effects() {
    let startup = on_startup_effect(10);
    assert_eq!(startup.duration, Some(3000));
    assert!(matches!(startup.kind, LedEffectKind::Breathing { peak: 300, time_to_peak: 3000, inhaling: true, .. }));
    let blink = get_on_connected_effect(10);
    assert_eq!(blink.duration, Some(1000));
    assert!(matches!(blink.kind, LedEffectKind::Blink { interval: 500, .. }));
    let mut initial = InitialLedState::from(startup);
    assert!(!initial.expire(3009));
    assert!(initial.expire(3010));
    assert!(initial.effect.is_off());
}

#[test]
fn new_controller_seeded_from_default() {
    let mut initial = InitialLedState::from(LedEffect::new(LedEffectKind::new_timed_rainbow(1000, 1000, 3000), 0));
    initial.advance(1);
    initial.advance(2);
    let mut ctl = bt_controller("AA", "/bt/1");
    seed_new_controller(&mut ctl, &initial, 3);
    assert_eq!(ctl.setting.led, initial.hsv);
    assert_eq!(ctl.setting.led.hue, 240);
    assert!(matches!(ctl.led_effect.kind, LedEffectKind::Rainbow { .. }));
    let off = InitialLedState::from(LedEffect::off(0));
    let mut other = bt_controller("BB", "/bt/2");
    seed_new_controller(&mut other, &off, 3);
    assert!(matches!(other.led_effect.kind, LedEffectKind::Blink { .. }));
    assert_eq!(other.setting.led, off.hsv);
    assert_eq!(other.setting.led, Hsv::off());
    let mut dark_start = other;
    assert_eq!(dark_start.led_effect.kind.get_updated_hsv(Hsv::off(), 254), Hsv::new(42000, 1000, 350));
}

#[test]
fn usb_and_bluetooth_entries_merge_into_one() {
    let mut controllers: Vec<PsMoveController<()>> = Vec::new();
    add_connected_controllers(&mut controllers, bt_controller("AA:BB:CC:DD:EE:FF", "/bt/1"));
    add_connected_controllers(&mut controllers, usb_controller("AA:BB:CC:DD:EE:FF", "/usb/1"));
    assert_eq!(controllers.len(), 1);
    assert_eq!(controllers[0].connection_type, ConnectionType::UsbAndBluetooth);
    assert_eq!(controllers[0].info.bt_path, "/bt/1");
    assert_eq!(controllers[0].info.usb_path, "/usb/1");
    add_connected_controllers(&mut controllers, bt_controller("11:22", "/bt/2"));
    assert_eq!(controllers.len(), 2);
}

#[test]
fn scan_with_two_entries_of_one_controller() {
    let entries = vec![entry("AA:BB:CC:DD:EE:FF", "/bt/1"), entry("", "/usb/1")];
    let current = list_psmove_devices(&entries, false);
    assert_eq!(current.len(), 2);
    let mut controllers: Vec<PsMoveController<()>> = Vec::new();
    let listing = list(&controllers, &current);
    assert!(listing.disconnected.is_empty());
    assert_eq!(listing.connected.len(), 2);
    let opened: Vec<PsMoveController<()>> = listing
        .connected
        .iter()
        .map(|info| {
            let plan = plan_connection(info);
            controller_from_plan((), &plan, Some(String::from("AA:BB:CC:DD:EE:FF")), 0)
        })
        .collect();
    let initial = InitialLedState::from(LedEffect::off(0));
    let removed = reconcile_controllers(&mut controllers, &current, &listing.disconnected, opened, &initial, 0);
    assert!(removed.is_empty());
    assert_eq!(controllers.len(), 1);
    assert_eq!(controllers[0].connection_type, ConnectionType::UsbAndBluetooth);
    assert_eq!(controllers[0].info.bt_path, "/bt/1");
    assert_eq!(controllers[0].info.usb_path, "/usb/1");
    let again = list(&controllers, &current);
    assert!(again.connected.is_empty());
    assert!(again.disconnected.is_empty());
}

#[test]
fn dual_controller_downgrades_then_disconnects() {
    let mut dual = usb_controller("AA", "/usb/1");
    dual.merge_with(&bt_controller("AA", "/bt/1"));
    let mut controllers = vec![dual];
    let only_bt = list_psmove_devices(&vec![entry("AA", "/bt/1")], false);
    let listing = list(&controllers, &only_bt);
    assert!(listing.disconnected.is_empty());
    update_changed_controllers(&mut controllers, &only_bt);
    assert_eq!(controllers[0].connection_type, ConnectionType::Bluetooth);
    let nothing: Vec<ControllerInfo> = Vec::new();
    let listing = list(&controllers, &nothing);
    assert_eq!(listing.disconnected.len(), 1);
    let removed = remove_disconnected_controllers(&mut controllers, &listing.disconnected);
    assert_eq!(removed.len(), 1);
    assert!(controllers.is_empty());
}

#[test]
fn listing_splits_connected_and_disconnected() {
    let controllers = vec![usb_controller("AA", "/usb/1"), bt_controller("BB", "/bt/2")];
    let current = vec![ControllerInfo::from("", "/usb/1"), ControllerInfo::from("CC", "/bt/3")];
    let gone = get_disconnected_controllers(&controllers, &current);
    assert_eq!(gone.len(), 1);
    assert_eq!(gone[0].bt_path, "/bt/2");
    let fresh = get_connected_controllers(&controllers, &current);
    assert_eq!(fresh.len(), 1);
    assert_eq!(fresh[0].serial_number, "CC");
    let empty = ListingResult::new();
    assert!(empty.connected.is_empty() && empty.disconnected.is_empty());
}

#[test]
fn failed_controllers_are_dropped() {
    let mut controllers = vec![bt_controller("AA", "/bt/1"), bt_controller("BB", "/bt/2"), bt_controller("CC", "/bt/3")];
    let removed = remove_controllers_by_address(&mut controllers, &vec![String::from("BB")]);
    assert_eq!(removed.len(), 1);
    assert_eq!(removed[0].bt_address, "BB");
    assert_eq!(controllers.len(), 2);
    assert_eq!(controllers[0].bt_address, "AA");
    assert_eq!(controllers[1].bt_address, "CC");
}

#[test]
fn controller_filter_uses_identity_and_marker() {
    let plain = entry("", "/dev/hidraw0");
    assert!(is_move_controller(&plain, false));
    assert!(!is_move_controller(&plain, true));
    let marked = entry("", "\\\\?\\hid#vid_054c&pid_03d5&Col01#8&0000#{x}");
    assert!(is_move_controller(&marked, true));
    let other = HidDeviceEntry { vendor_id: 0x1234, product_id: 0x03d5, serial_number: String::new(), path: String::from("/x") };
    assert!(!is_move_controller(&other, false));
    let infos = list_psmove_devices(&vec![plain, other, marked], true);
    assert_eq!(infos.len(), 1);
    assert_eq!(infos[0].usb_path, "\\\\?\\hid#vid_054c&pid_03d5&Col01#8&0000#{x}");
}

#[test]
fn sibling_path_swaps_markers() {
    let path = "\\\\?\\hid#vid_054c&pid_03d5&Col01#8&0000#{x}";
    assert_eq!(sibling_collection_path(path), "\\\\?\\hid#vid_054c&pid_03d5&Col02#8&0001#{x}");
    assert_eq!(sibling_collection_path("/dev/hidraw0"), "/dev/hidraw0");
}

#[test]
fn connection_plan_per_transport() {
    let usb = plan_connection(&ControllerInfo::from("", "/usb/1"));
    assert!(usb.open_by_path);
    assert_eq!(usb.connection_type, ConnectionType::Usb);
    assert_eq!(usb.path, "/usb/1");
    let bt = plan_connection(&ControllerInfo::from("AA", "/bt/1"));
    assert!(!bt.open_by_path);
    assert_eq!(bt.connection_type, ConnectionType::Bluetooth);
    let ctl = controller_from_plan((), &bt, Some(String::from("ignored")), 0);
    assert_eq!(ctl.bt_address, "AA");
    assert_eq!(ctl.info.bt_path, "/bt/1");
    let ctl = controller_from_plan((), &usb, None, 0);
    assert_eq!(ctl.bt_address, "");
    assert_eq!(ctl.info.usb_path, "/usb/1");
}

#[test]
fn shutdown_flag_is_read_at_most_every_interval() {
    let mut signal = ShutdownSignal::new(0);
    assert!(!signal.needs_reload(99));
    assert!(signal.needs_reload(100));
    signal.record(100, true);
    assert!(signal.is_shutting_down());
    assert!(!signal.needs_reload(150));
}

#[test]
fn address_listed_twice_applies_twice() {
    let mut controllers = vec![bt_controller("AA", "/bt/1"), bt_controller("BB", "/bt/2")];
    let mut initial = InitialLedState::from(on_startup_effect(0));
    let color = Hsv::new(120000, 1000, 500);
    let set = EffectChange {
        target: EffectTarget::All,
        effect: EffectChangeType::Led { effect: LedEffect::new(LedEffectKind::Static { hsv: color }, 0) },
    };
    apply_effect_change(&mut controllers, &mut initial, &set, 0);
    let revert_twice = EffectChange {
        target: EffectTarget::Only { bt_addresses: vec![String::from("AA"), String::from("ZZ"), String::from("AA")] },
        effect: EffectChangeType::RevertLed,
    };
    let unknown = apply_effect_change(&mut controllers, &mut initial, &revert_twice, 1);
    assert_eq!(unknown, vec![String::from("ZZ")]);
    assert_eq!(controllers[0].setting.led, color);
    assert!(matches!(controllers[0].led_effect.kind, LedEffectKind::Static { .. }));
    let revert_once = EffectChange {
        target: EffectTarget::Only { bt_addresses: vec![String::from("ZZ"), String::from("BB")] },
        effect: EffectChangeType::RevertLed,
    };
    apply_effect_change(&mut controllers, &mut initial, &revert_once, 2);
    assert!(controllers[1].led_effect.is_off());
    assert_eq!(controllers[1].setting.led, Hsv::off());
}

#[test]
fn out_of_range_command_is_applied() {
    let mut controllers = vec![bt_controller("AA", "/bt/1")];
    let mut initial = InitialLedState::from(on_startup_effect(0));
    let change = EffectChange {
        target: EffectTarget::All,
        effect: EffectChangeType::Rumble { effect: RumbleEffect::new(RumbleEffectKind::Static { strength: 4000 }, 0) },
    };
    assert!(change.effect.is_well_formed());
    assert!(change.effect.has_out_of_range_parameters());
    apply_effect_change(&mut controllers, &mut initial, &change, 0);
    assert_eq!(controllers[0].setting.rumble, 4000);
}

#[test]
fn replace_all_left_to_right() {
    assert_eq!(replace_all("aaa", "aa", "b"), "ba");
    assert_eq!(replace_all("x&Col01#y&Col01#", "&Col01#", "&Col02#"), "x&Col02#y&Col02#");
    assert_eq!(replace_all("abc", "", "z"), "abc");
    assert_eq!(replace_all("ab", "abc", "z"), "ab");
    assert_eq!(replace_all("h\u{e9}llo", "l", "L"), "h\u{e9}LLo");
}
