//! Controller identities, telemetry values and the input report layout.

use vstd::prelude::*;

verus! {

/// Vendor identity of the controller on the HID bus.
pub const PS_MOVE_VENDOR_ID: u16 = 0x054c;

/// Product identity of the controller on the HID bus.
pub const PS_MOVE_PRODUCT_ID: u16 = 0x03d5;

/// Report type of an input (telemetry) report.
pub const REQUEST_GET_INPUT: u8 = 0x01;

/// Report type of the LED and rumble command.
pub const REQUEST_SET_LED: u8 = 0x06;

/// Report type of the LED PWM frequency command.
pub const REQUEST_SET_LED_PWM_FREQUENCY: u8 = 0x03;

/// Report type of the Bluetooth address feature request.
pub const REQUEST_GET_BLUETOOTH_ADDR: u8 = 0x04;

/// Number of buttons whose state is tracked.
pub const BUTTON_COUNT: usize = 8;

/// How a controller is reachable.
#[derive(Clone, Copy, Debug, PartialEq, Eq, Structural)]
pub enum ConnectionType {
    Usb,
    Bluetooth,
    UsbAndBluetooth,
}

/// Correlation key of one raw scan entry: the serial number (the Bluetooth
/// address when known) and the path of each transport it was seen on.
#[derive(Debug)]
pub struct ControllerInfo {
    pub serial_number: String,
    pub bt_path: String,
    pub usb_path: String,
}

impl Clone for ControllerInfo {
    fn clone(&self) -> (r: Self)
        ensures
            r == *self,
    {
        ControllerInfo {
            serial_number: self.serial_number.clone(),
            bt_path: self.bt_path.clone(),
            usb_path: self.usb_path.clone(),
        }
    }
}

impl PartialEq for ControllerInfo {
    fn eq(&self, other: &ControllerInfo) -> (r: bool)
        ensures
            r == self.same_as(*other),
    {
        self.serial_number == other.serial_number && self.bt_path == other.bt_path
            && self.usb_path == other.usb_path
    }
}

impl vstd::std_specs::cmp::PartialEqSpecImpl for ControllerInfo {
    open spec fn obeys_eq_spec() -> bool {
        true
    }

    open spec fn eq_spec(&self, other: &ControllerInfo) -> bool {
        self.same_as(*other)
    }
}

impl ControllerInfo {
    /// The three strings agree character for character.
    pub open spec fn same_as(self, other: ControllerInfo) -> bool {
        &&& self.serial_number@ == other.serial_number@
        &&& self.bt_path@ == other.bt_path@
        &&& self.usb_path@ == other.usb_path@
    }

    /// Classifies one raw entry: without a serial number it was seen over
    /// USB, with one over Bluetooth.
    pub fn from(serial_number: &str, path: &str) -> (r: ControllerInfo)
        ensures
            r.serial_number@ == serial_number@,
            serial_number@.len() == 0 ==> r.usb_path@ == path@ && r.bt_path@.len() == 0,
            serial_number@.len() != 0 ==> r.bt_path@ == path@ && r.usb_path@.len() == 0,
    {
        let serial_number_owned = serial_number.to_owned();
        let path_owned = path.to_owned();
        if serial_number.is_empty() {
            ControllerInfo {
                serial_number: serial_number_owned,
                bt_path: String::new(),
                usb_path: path_owned,
            }
        } else {
            ControllerInfo {
                serial_number: serial_number_owned,
                bt_path: path_owned,
                usb_path: String::new(),
            }
        }
    }

    pub fn new(serial_number: String, bt_path: String, usb_path: String) -> (r: ControllerInfo)
        ensures
            r.serial_number == serial_number,
            r.bt_path == bt_path,
            r.usb_path == usb_path,
    {
        ControllerInfo { serial_number, bt_path, usb_path }
    }
}

/// Battery state reported by the controller.
#[derive(Clone, Copy, Debug, PartialEq, Eq, Structural)]
pub enum BatteryLevel {
    Unknown,
    Empty,
    TwentyPercent,
    FortyPercent,
    SixtyPercent,
    EightyPercent,
    Full,
    Charging,
    Charged,
}

/// The battery state that a battery code stands for.
pub open spec fn battery_of(byte: u8) -> BatteryLevel {
    if byte == 0x00 {
        BatteryLevel::Empty
    } else if byte == 0x01 {
        BatteryLevel::TwentyPercent
    } else if byte == 0x02 {
        BatteryLevel::FortyPercent
    } else if byte == 0x03 {
        BatteryLevel::SixtyPercent
    } else if byte == 0x04 {
        BatteryLevel::EightyPercent
    } else if byte == 0x05 {
        BatteryLevel::Full
    } else if byte == 0xEE {
        BatteryLevel::Charging
    } else if byte == 0xEF {
        BatteryLevel::Charged
    } else {
        BatteryLevel::Unknown
    }
}

impl BatteryLevel {
    pub fn from_byte(byte: u8) -> (r: BatteryLevel)
        ensures
            r == battery_of(byte),
    {
        match byte {
            0x00 => BatteryLevel::Empty,
            0x01 => BatteryLevel::TwentyPercent,
            0x02 => BatteryLevel::FortyPercent,
            0x03 => BatteryLevel::SixtyPercent,
            0x04 => BatteryLevel::EightyPercent,
            0x05 => BatteryLevel::Full,
            0xEE => BatteryLevel::Charging,
            0xEF => BatteryLevel::Charged,
            _ => BatteryLevel::Unknown,
        }
    }
}

/// The buttons whose state is tracked.
#[derive(Clone, Copy, Debug, PartialEq, Eq, Hash, Structural)]
pub enum Button {
    Cross,
    Square,
    Circle,
    Triangle,
    Move,
    Start,
    Select,
    Trigger,
}

/// The button at each position of a state vector.
pub open spec fn button_at(i: int) -> Button {
    if i == 0 {
        Button::Cross
    } else if i == 1 {
        Button::Square
    } else if i == 2 {
        Button::Circle
    } else if i == 3 {
        Button::Triangle
    } else if i == 4 {
        Button::Move
    } else if i == 5 {
        Button::Start
    } else if i == 6 {
        Button::Select
    } else {
        Button::Trigger
    }
}

impl Button {
    /// Builds the button at position `i` of a state vector.
    pub fn from_index(i: usize) -> (r: Button)
        requires
            i < BUTTON_COUNT,
        ensures
            r == button_at(i as int),
    {
        if i == 0 {
            Button::Cross
        } else if i == 1 {
            Button::Square
        } else if i == 2 {
            Button::Circle
        } else if i == 3 {
            Button::Triangle
        } else if i == 4 {
            Button::Move
        } else if i == 5 {
            Button::Start
        } else if i == 6 {
            Button::Select
        } else {
            Button::Trigger
        }
    }
}

/// `Pressed` means that the button is down, `Released` that it is up.
#[derive(Clone, Copy, Debug, PartialEq, Eq, Structural)]
pub enum ButtonState {
    Pressed,
    Released,
}

/// The state that a down / up flag stands for.
pub open spec fn state_of(is_down: bool) -> ButtonState {
    if is_down {
        ButtonState::Pressed
    } else {
        ButtonState::Released
    }
}

impl ButtonState {
    pub fn new(is_down: bool) -> (r: ButtonState)
        ensures
            r == state_of(is_down),
    {
        if is_down {
            ButtonState::Pressed
        } else {
            ButtonState::Released
        }
    }
}

/// Bit `n` of `b` is set.
pub open spec fn bit_set(b: u8, n: u8) -> bool {
    (b >> n) & 1u8 == 1u8
}

/// Whether button `btn` is down in the four button bytes of an input report.
pub open spec fn button_down(bytes: Seq<u8>, btn: Button) -> bool {
    match btn {
        Button::Start => bit_set(bytes[0], 4),
        Button::Select => bit_set(bytes[0], 0),
        Button::Square => bit_set(bytes[1], 7),
        Button::Cross => bit_set(bytes[1], 6),
        Button::Circle => bit_set(bytes[1], 5),
        Button::Triangle => bit_set(bytes[1], 4),
        Button::Move => bit_set(bytes[3], 6),
        Button::Trigger => bit_set(bytes[3], 7),
    }
}

/// The state vector (one entry per position of `button_at`) that four button
/// bytes describe.
pub open spec fn button_states_of(bytes: Seq<u8>) -> Seq<ButtonState> {
    Seq::new(BUTTON_COUNT as nat, |i: int| state_of(button_down(bytes, button_at(i))))
}

fn bit_of(b: u8, n: u8) -> (r: bool)
    requires
        n < 8,
    ensures
        r == bit_set(b, n),
{
    (b >> n) & 1 == 1
}

/// Decodes the four button bytes of an input report into `state`, one entry
/// per position of `button_at`.
pub fn fill_state_from_byte_slice(state: &mut Vec<ButtonState>, bytes: [u8; 4])
    ensures
        final(state)@ == button_states_of(bytes@),
{
    let cross = ButtonState::new(bit_of(bytes[1], 6));
    let square = ButtonState::new(bit_of(bytes[1], 7));
    let circle = ButtonState::new(bit_of(bytes[1], 5));
    let triangle = ButtonState::new(bit_of(bytes[1], 4));
    let move_button = ButtonState::new(bit_of(bytes[3], 6));
    let start = ButtonState::new(bit_of(bytes[0], 4));
    let select = ButtonState::new(bit_of(bytes[0], 0));
    let trigger = ButtonState::new(bit_of(bytes[3], 7));
    *state = vec![cross, square, circle, triangle, move_button, start, select, trigger];
    assert(state@ =~= button_states_of(bytes@));
}

/// A button that changed state.
#[derive(Clone, Copy, Debug, PartialEq, Eq, Structural)]
pub struct ButtonChange {
    pub button: Button,
    pub state: ButtonState,
}

/// A change that a controller reports outward.
#[derive(Clone, Copy, Debug, PartialEq, Eq, Structural)]
pub enum ControllerChange {
    ButtonChange(ButtonChange),
}

impl ControllerChange {
    pub fn from_button(btn: &Button, state: &ButtonState) -> (r: ControllerChange)
        ensures
            r == ControllerChange::ButtonChange(ButtonChange { button: *btn, state: *state }),
    {
        ControllerChange::ButtonChange(ButtonChange { button: *btn, state: *state })
    }
}

} // verus!
