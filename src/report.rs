//! Binary formats of the HID reports exchanged with the controller.

use vstd::prelude::*;
use crate::color::UNIT;
use crate::models::{
    REQUEST_GET_BLUETOOTH_ADDR, REQUEST_GET_INPUT, REQUEST_SET_LED, REQUEST_SET_LED_PWM_FREQUENCY,
};

verus! {

/// Lowest LED PWM frequency the controller accepts.
pub const MIN_LED_PWM_FREQUENCY: u64 = 0x02dd;

/// Highest LED PWM frequency the controller accepts.
pub const MAX_LED_PWM_FREQUENCY: u64 = 0x24e6;

/// Size of the Bluetooth address feature report.
pub const BT_ADDR_REPORT_SIZE: usize = 16;

/// Size of an input report.
pub const INPUT_REPORT_SIZE: usize = 44;

/// One input report, field by field.
#[derive(Clone, Copy, Debug)]
pub struct DataInput {
    /// report type, `REQUEST_GET_INPUT` for telemetry
    pub msg_type: u8,
    /// bit 4 Start, bit 0 Select
    pub buttons1: u8,
    /// bit 7 Square, bit 6 Cross, bit 5 Circle, bit 4 Triangle
    pub buttons2: u8,
    /// bit 0 PS
    pub buttons3: u8,
    /// bit 6 Move, bit 7 Trigger
    pub buttons4: u8,
    /// analog trigger, first frame
    pub trigger: u8,
    /// analog trigger, second frame
    pub trigger2: u8,
    pub unk7: u8,
    pub unk8: u8,
    pub unk9: u8,
    pub unk10: u8,
    /// high byte of the timestamp
    pub time_high: u8,
    /// battery code, see `battery_of`
    pub battery: u8,
    pub accel_x_low: u8,
    pub accel_x_high: u8,
    pub accel_y_low: u8,
    pub accel_y_high: u8,
    pub accel_z_low: u8,
    pub accel_z_high: u8,
    pub accel_x_low2: u8,
    pub accel_x_high2: u8,
    pub accel_y_low2: u8,
    pub accel_y_high2: u8,
    pub accel_z_low2: u8,
    pub accel_z_high2: u8,
    pub gyro_x_low: u8,
    pub gyro_x_high: u8,
    pub gyro_y_low: u8,
    pub gyro_y_high: u8,
    pub gyro_z_low: u8,
    pub gyro_z_high: u8,
    pub gyro_x_low2: u8,
    pub gyro_x_high2: u8,
    pub gyro_y_low2: u8,
    pub gyro_y_high2: u8,
    pub gyro_z_low2: u8,
    pub gyro_z_high2: u8,
    pub temp_high: u8,
    pub temp_low_magneto_x_high: u8,
    pub magneto_x_low: u8,
    pub magneto_y_high: u8,
    pub magneto_y_low_magneto_z_high: u8,
    pub magneto_z_low: u8,
    /// low byte of the timestamp
    pub time_low: u8,
}

impl DataInput {
    /// The report bytes, in order.
    pub open spec fn bytes(self) -> Seq<u8> {
        seq![
            self.msg_type,
            self.buttons1,
            self.buttons2,
            self.buttons3,
            self.buttons4,
            self.trigger,
            self.trigger2,
            self.unk7,
            self.unk8,
            self.unk9,
            self.unk10,
            self.time_high,
            self.battery,
            self.accel_x_low,
            self.accel_x_high,
            self.accel_y_low,
            self.accel_y_high,
            self.accel_z_low,
            self.accel_z_high,
            self.accel_x_low2,
            self.accel_x_high2,
            self.accel_y_low2,
            self.accel_y_high2,
            self.accel_z_low2,
            self.accel_z_high2,
            self.gyro_x_low,
            self.gyro_x_high,
            self.gyro_y_low,
            self.gyro_y_high,
            self.gyro_z_low,
            self.gyro_z_high,
            self.gyro_x_low2,
            self.gyro_x_high2,
            self.gyro_y_low2,
            self.gyro_y_high2,
            self.gyro_z_low2,
            self.gyro_z_high2,
            self.temp_high,
            self.temp_low_magneto_x_high,
            self.magneto_x_low,
            self.magneto_y_high,
            self.magneto_y_low_magneto_z_high,
            self.magneto_z_low,
            self.time_low
        ]
    }

    pub fn new(req: [u8; 44]) -> (r: DataInput)
        ensures
            r.bytes() == req@,
    {
        let r = DataInput {
            msg_type: req[0],
            buttons1: req[1],
            buttons2: req[2],
            buttons3: req[3],
            buttons4: req[4],
            trigger: req[5],
            trigger2: req[6],
            unk7: req[7],
            unk8: req[8],
            unk9: req[9],
            unk10: req[10],
            time_high: req[11],
            battery: req[12],
            accel_x_low: req[13],
            accel_x_high: req[14],
            accel_y_low: req[15],
            accel_y_high: req[16],
            accel_z_low: req[17],
            accel_z_high: req[18],
            accel_x_low2: req[19],
            accel_x_high2: req[20],
            accel_y_low2: req[21],
            accel_y_high2: req[22],
            accel_z_low2: req[23],
            accel_z_high2: req[24],
            gyro_x_low: req[25],
            gyro_x_high: req[26],
            gyro_y_low: req[27],
            gyro_y_high: req[28],
            gyro_z_low: req[29],
            gyro_z_high: req[30],
            gyro_x_low2: req[31],
            gyro_x_high2: req[32],
            gyro_y_low2: req[33],
            gyro_y_high2: req[34],
            gyro_z_low2: req[35],
            gyro_z_high2: req[36],
            temp_high: req[37],
            temp_low_magneto_x_high: req[38],
            magneto_x_low: req[39],
            magneto_y_high: req[40],
            magneto_y_low_magneto_z_high: req[41],
            magneto_z_low: req[42],
            time_low: req[43],
        };
        assert(r.bytes() =~= req@);
        r
    }

    /// Whether this is a telemetry report.
    pub fn is_input_report(&self) -> (r: bool)
        ensures
            r == (self.msg_type == REQUEST_GET_INPUT),
    {
        self.msg_type == REQUEST_GET_INPUT
    }

    /// The four bytes that carry button bits.
    pub fn get_button_slice(&self) -> (r: [u8; 4])
        ensures
            r@ == seq![self.buttons1, self.buttons2, self.buttons3, self.buttons4],
    {
        let r = [self.buttons1, self.buttons2, self.buttons3, self.buttons4];
        assert(r@ =~= seq![self.buttons1, self.buttons2, self.buttons3, self.buttons4]);
        r
    }

    /// The analog trigger level: the mean of the two sample frames, in tenths
    /// of a step (so the half step of an odd sum is kept exactly).
    pub fn get_trigger(&self) -> (r: u16)
        ensures
            r == (self.trigger + self.trigger2) * 5,
    {
        (self.trigger as u16 + self.trigger2 as u16) * 5
    }
}


/// The LED PWM frequency command: type, a fixed sub-command byte, a zero
/// byte, then the frequency in little-endian order.
pub fn build_set_led_pwm_request(frequency: u64) -> (r: [u8; 7])
    requires
        MIN_LED_PWM_FREQUENCY <= frequency <= MAX_LED_PWM_FREQUENCY,
    ensures
        r@ == seq![
            REQUEST_SET_LED_PWM_FREQUENCY,
            0x41u8,
            0u8,
            (frequency & 0xff) as u8,
            ((frequency >> 8u64) & 0xff) as u8,
            ((frequency >> 16u64) & 0xff) as u8,
            ((frequency >> 24u64) & 0xff) as u8,
        ],
{
    let r = [
        REQUEST_SET_LED_PWM_FREQUENCY,
        0x41,
        0,
        (frequency & 0xff) as u8,
        ((frequency >> 8u64) & 0xff) as u8,
        ((frequency >> 16u64) & 0xff) as u8,
        ((frequency >> 24u64) & 0xff) as u8,
    ];
    assert(r@ =~= seq![
        REQUEST_SET_LED_PWM_FREQUENCY,
        0x41u8,
        0u8,
        (frequency & 0xff) as u8,
        ((frequency >> 8u64) & 0xff) as u8,
        ((frequency >> 16u64) & 0xff) as u8,
        ((frequency >> 24u64) & 0xff) as u8,
    ]);
    r
}

/// The Bluetooth address feature request: its type, then zeros.
pub fn build_get_bt_addr_request() -> (r: [u8; 16])
    ensures
        r@[0] == REQUEST_GET_BLUETOOTH_ADDR,
        forall|i: int| 1 <= i < 16 ==> r@[i] == 0,
{
    [REQUEST_GET_BLUETOOTH_ADDR, 0, 0, 0, 0, 0, 0, 0, 0, 0, 0, 0, 0, 0, 0, 0]
}

/// A normalised strength as a byte: `UNIT` maps to 255, and a strength
/// above the full scale saturates there.
pub open spec fn strength_byte(strength: int) -> int {
    let capped = if strength > UNIT { UNIT as int } else { strength };
    capped * 255 / (UNIT as int)
}

/// The actuator command: LED colour as red, green, blue, and rumble strength.
pub fn build_set_led_and_rumble_request(rgb: [u8; 3], rumble: u32) -> (r: [u8; 8])
    ensures
        r@ == seq![
            REQUEST_SET_LED,
            0u8,
            rgb@[0],
            rgb@[1],
            rgb@[2],
            0u8,
            strength_byte(rumble as int) as u8,
            0u8,
        ],
        strength_byte(rumble as int) <= 255,
{
    let capped: u32 = if rumble > UNIT { UNIT } else { rumble };
    proof {
        assert(capped * 255 <= UNIT * 255) by (nonlinear_arith)
            requires capped <= UNIT;
        assert(capped * 255 / (UNIT as int) <= 255) by (nonlinear_arith)
            requires capped * 255 <= UNIT * 255;
    }
    let rumble_byte: u8 = (capped * 255 / UNIT) as u8;
    let r = [REQUEST_SET_LED, 0, rgb[0], rgb[1], rgb[2], 0, rumble_byte, 0];
    assert(r@ =~= seq![
        REQUEST_SET_LED,
        0u8,
        rgb@[0],
        rgb@[1],
        rgb@[2],
        0u8,
        strength_byte(rumble as int) as u8,
        0u8,
    ]);
    r
}

/// The six address bytes of a Bluetooth address feature response: bytes 1 to
/// 6, most significant first (the report holds them in reverse order).
pub fn bt_address_bytes(report: &[u8; 16]) -> (r: [u8; 6])
    ensures
        r@ == seq![report@[6], report@[5], report@[4], report@[3], report@[2], report@[1]],
{
    let r = [report[6], report[5], report[4], report[3], report[2], report[1]];
    assert(r@ =~= seq![report@[6], report@[5], report@[4], report@[3], report@[2], report@[1]]);
    r
}

/// Lower-case hexadecimal digit for a value below sixteen.
pub open spec fn hex_digit(n: int) -> u8 {
    if n < 10 {
        (48 + n) as u8
    } else {
        (87 + n) as u8
    }
}

/// Two lower-case hexadecimal digits per byte, most significant digit first.
pub open spec fn hex_of(bytes: Seq<u8>) -> Seq<u8>
    decreases bytes.len(),
{
    if bytes.len() == 0 {
        Seq::empty()
    } else {
        hex_of(bytes.drop_last()) + seq![
            hex_digit(bytes.last() as int / 16),
            hex_digit(bytes.last() as int % 16),
        ]
    }
}

fn hex_digit_of(n: u8) -> (r: u8)
    requires
        n < 16,
    ensures
        r == hex_digit(n as int),
        r < 128,
{
    if n < 10 {
        48 + n
    } else {
        87 + n
    }
}

/// The Bluetooth address of a feature response as twelve lower-case hex
/// digits (ASCII), most significant byte first.
pub fn bt_address_hex(report: &[u8; 16]) -> (r: Vec<u8>)
    ensures
        r@ == hex_of(bt_address_bytes_spec(report@)),
        forall|i: int| 0 <= i < r@.len() ==> r@[i] < 128,
{
    let bytes = bt_address_bytes(report);
    let mut r: Vec<u8> = Vec::new();
    let mut i: usize = 0;
    while i < 6
        invariant
            i <= 6,
            bytes@ == bt_address_bytes_spec(report@),
            r@ == hex_of(bytes@.take(i as int)),
            forall|j: int| 0 <= j < r@.len() ==> r@[j] < 128,
        decreases 6 - i,
    {
        let b = bytes[i];
        r.push(hex_digit_of(b / 16));
        r.push(hex_digit_of(b % 16));
        assert(bytes@.take(i + 1).drop_last() =~= bytes@.take(i as int));
        i = i + 1;
    }
    assert(bytes@.take(6) =~= bytes@);
    r
}

/// The six address bytes of a Bluetooth address feature response, most
/// significant first.
pub open spec fn bt_address_bytes_spec(report: Seq<u8>) -> Seq<u8> {
    seq![report[6], report[5], report[4], report[3], report[2], report[1]]
}

} // verus!
