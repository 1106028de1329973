//! HID transport scanning: which raw entries are controllers, and how a scan
//! compares with the controllers already known.

use vstd::prelude::*;
use crate::controller::PsMoveController;
use crate::models::{ConnectionType, ControllerInfo, PS_MOVE_PRODUCT_ID, PS_MOVE_VENDOR_ID};

verus! {

/// Path marker of the control collection, on the platform where one device
/// shows up as several HID collections.
pub const MAGIC_PATH: &'static str = "&Col01#";

/// Path marker of the sibling collection that answers the Bluetooth address
/// request on that platform.
pub const BLUETOOTH_MAGIC_PATH: &'static str = "&Col02#";

/// Interface number in the path of the control collection.
pub const MAGIC_INTERFACE: &'static str = "&0000#";

/// Interface number in the path of the sibling collection.
pub const BLUETOOTH_MAGIC_INTERFACE: &'static str = "&0001#";

/// One raw entry of a HID enumeration, as plain values.
#[derive(Debug)]
pub struct HidDeviceEntry {
    pub vendor_id: u16,
    pub product_id: u16,
    /// Empty when the bus reports none.
    pub serial_number: String,
    pub path: String,
}

/// Raw entries seen in a scan, set against the controllers already known.
#[derive(Debug)]
pub struct ListingResult {
    /// Known controllers none of whose transports is still seen.
    pub disconnected: Vec<ControllerInfo>,
    /// Raw entries that belong to no known controller.
    pub connected: Vec<ControllerInfo>,
}

impl ListingResult {
    pub fn new() -> (r: ListingResult)
        ensures
            r.disconnected@.len() == 0,
            r.connected@.len() == 0,
    {
        ListingResult { disconnected: Vec::new(), connected: Vec::new() }
    }
}

/// `needle` occurs in `s` as a contiguous run of characters.
pub open spec fn contains_run(s: Seq<char>, needle: Seq<char>) -> bool {
    exists|i: int| 0 <= i && i + needle.len() <= s.len() && #[trigger] s.subrange(i, i + needle.len()) == needle
}

/// Whether `needle` occurs in `s` at position `i`.
fn occurs_at(s: &str, needle: &str, i: usize) -> (r: bool)
    requires
        i + needle@.len() <= s@.len(),
        s@.len() <= usize::MAX,
    ensures
        r == (s@.subrange(i as int, i + needle@.len()) == needle@),
{
    let m = needle.unicode_len();
    let mut j: usize = 0;
    while j < m
        invariant
            m == needle@.len(),
            i + m <= s@.len(),
            s@.len() <= usize::MAX,
            j <= m,
            forall|k: int| 0 <= k < j ==> s@[i + k] == needle@[k],
        decreases m - j,
    {
        if s.get_char(i + j) != needle.get_char(j) {
            assert(s@.subrange(i as int, i + m)[j as int] != needle@[j as int]);
            return false;
        }
        j = j + 1;
    }
    assert(s@.subrange(i as int, i + m) =~= needle@);
    true
}

/// Whether `needle` occurs in `s` as a contiguous run of characters.
fn str_contains(s: &str, needle: &str) -> (r: bool)
    ensures
        r == contains_run(s@, needle@),
{
    let n = s.unicode_len();
    let m = needle.unicode_len();
    if m > n {
        return false;
    }
    let mut i: usize = 0;
    loop
        invariant
            n == s@.len(),
            m == needle@.len(),
            m <= n,
            i <= n - m,
            forall|k: int| 0 <= k < i ==> #[trigger] s@.subrange(k, k + m) != needle@,
        decreases n - m - i,
    {
        if occurs_at(s, needle, i) {
            return true;
        }
        if i == n - m {
            return false;
        }
        i = i + 1;
    }
}

/// A raw entry is the control interface of a controller: the identity
/// matches, and where collections are split the path carries the marker.
pub open spec fn spec_is_move_controller(entry: HidDeviceEntry, needs_marker: bool) -> bool {
    &&& entry.vendor_id == PS_MOVE_VENDOR_ID
    &&& entry.product_id == PS_MOVE_PRODUCT_ID
    &&& (needs_marker ==> contains_run(entry.path@, MAGIC_PATH@))
}

/// Whether a raw entry is the control interface of a controller.
/// `needs_marker` says that the platform splits one device into several
/// collections.
pub fn is_move_controller(entry: &HidDeviceEntry, needs_marker: bool) -> (r: bool)
    ensures
        r == spec_is_move_controller(*entry, needs_marker),
{
    if needs_marker && !str_contains(entry.path.as_str(), MAGIC_PATH) {
        return false;
    }
    entry.vendor_id == PS_MOVE_VENDOR_ID && entry.product_id == PS_MOVE_PRODUCT_ID
}

/// The strings of a correlation key: serial number, Bluetooth path, USB path.
pub open spec fn info_view(info: ControllerInfo) -> (Seq<char>, Seq<char>, Seq<char>) {
    (info.serial_number@, info.bt_path@, info.usb_path@)
}

/// The correlation key of one raw entry: without a serial number it was seen
/// over USB, with one over Bluetooth.
pub open spec fn entry_view(entry: HidDeviceEntry) -> (Seq<char>, Seq<char>, Seq<char>) {
    if entry.serial_number@.len() == 0 {
        (entry.serial_number@, Seq::empty(), entry.path@)
    } else {
        (entry.serial_number@, entry.path@, Seq::empty())
    }
}

/// Keys of the controller entries among the first `n` raw entries, in order.
pub open spec fn move_entry_views(entries: Seq<HidDeviceEntry>, needs_marker: bool, n: int) -> Seq<(Seq<char>, Seq<char>, Seq<char>)>
    decreases n,
{
    if n <= 0 {
        Seq::empty()
    } else {
        let prev = move_entry_views(entries, needs_marker, n - 1);
        if spec_is_move_controller(entries[n - 1], needs_marker) {
            prev.push(entry_view(entries[n - 1]))
        } else {
            prev
        }
    }
}

/// Keeps the raw entries that are controllers, as correlation keys.
pub fn list_psmove_devices(entries: &Vec<HidDeviceEntry>, needs_marker: bool) -> (r: Vec<ControllerInfo>)
    ensures
        r@.map_values(|i: ControllerInfo| info_view(i)) == move_entry_views(entries@, needs_marker, entries@.len() as int),
{
    let mut r: Vec<ControllerInfo> = Vec::new();
    let mut k: usize = 0;
    while k < entries.len()
        invariant
            k <= entries@.len(),
            r@.map_values(|i: ControllerInfo| info_view(i)) == move_entry_views(entries@, needs_marker, k as int),
        decreases entries@.len() - k,
    {
        let entry = &entries[k];
        if is_move_controller(entry, needs_marker) {
            let info = ControllerInfo::from(entry.serial_number.as_str(), entry.path.as_str());
            assert(info.bt_path@.len() == 0 ==> info.bt_path@ =~= Seq::<char>::empty());
            assert(info.usb_path@.len() == 0 ==> info.usb_path@ =~= Seq::<char>::empty());
            assert(info_view(info) == entry_view(*entry));
            let ghost before = r@;
            r.push(info);
            assert(r@.map_values(|i: ControllerInfo| info_view(i)) =~= before.map_values(|i: ControllerInfo| info_view(i)).push(entry_view(*entry)));
        }
        k = k + 1;
    }
    r
}

/// Some raw entry of the scan belongs to `ctl`.
pub open spec fn seen<D>(ctl: PsMoveController<D>, current: Seq<ControllerInfo>) -> bool {
    exists|i: int| 0 <= i < current.len() && #[trigger] ctl.spec_same_device(current[i])
}

/// Keys of the controllers among the first `n` that the scan no longer shows
/// on any of their transports, in order. (A dual-transport controller that
/// still shows on one transport is not gone: it is downgraded.)
pub open spec fn gone_infos<D>(ctls: Seq<PsMoveController<D>>, current: Seq<ControllerInfo>, n: int) -> Seq<ControllerInfo>
    decreases n,
{
    if n <= 0 {
        Seq::empty()
    } else {
        let prev = gone_infos(ctls, current, n - 1);
        let c = ctls[n - 1];
        if !seen(c, current) {
            prev.push(c.info)
        } else {
            prev
        }
    }
}

/// Raw entries among the first `n` that belong to no known controller, in order.
pub open spec fn new_infos<D>(ctls: Seq<PsMoveController<D>>, current: Seq<ControllerInfo>, n: int) -> Seq<ControllerInfo>
    decreases n,
{
    if n <= 0 {
        Seq::empty()
    } else {
        let prev = new_infos(ctls, current, n - 1);
        if exists|k: int| 0 <= k < ctls.len() && #[trigger] ctls[k].spec_same_device(current[n - 1]) {
            prev
        } else {
            prev.push(current[n - 1])
        }
    }
}

/// Whether some raw entry of the scan belongs to `ctl`.
pub fn seen_in<D>(ctl: &PsMoveController<D>, current: &Vec<ControllerInfo>) -> (r: bool)
    ensures
        r == seen(*ctl, current@),
{
    let mut i: usize = 0;
    while i < current.len()
        invariant
            i <= current@.len(),
            forall|k: int| 0 <= k < i ==> !(#[trigger] ctl.spec_same_device(current@[k])),
        decreases current@.len() - i,
    {
        if ctl.is_same_device(&current[i]) {
            return true;
        }
        i = i + 1;
    }
    false
}

/// Keys of the known controllers that the scan no longer shows on any of
/// their transports, in list order.
pub fn get_disconnected_controllers<D>(
    old_controllers: &Vec<PsMoveController<D>>,
    current_controllers: &Vec<ControllerInfo>,
) -> (r: Vec<ControllerInfo>)
    ensures
        r@ == gone_infos(old_controllers@, current_controllers@, old_controllers@.len() as int),
{
    let mut r: Vec<ControllerInfo> = Vec::new();
    let mut i: usize = 0;
    while i < old_controllers.len()
        invariant
            i <= old_controllers@.len(),
            r@ == gone_infos(old_controllers@, current_controllers@, i as int),
        decreases old_controllers@.len() - i,
    {
        let ctl = &old_controllers[i];
        if !seen_in(ctl, current_controllers) {
            r.push(ctl.info.clone());
        }
        i = i + 1;
    }
    r
}

/// Raw entries of the scan that belong to no known controller, in scan order.
pub fn get_connected_controllers<D>(
    old_controllers: &Vec<PsMoveController<D>>,
    current_controllers: &Vec<ControllerInfo>,
) -> (r: Vec<ControllerInfo>)
    ensures
        r@ == new_infos(old_controllers@, current_controllers@, current_controllers@.len() as int),
{
    let mut r: Vec<ControllerInfo> = Vec::new();
    let mut i: usize = 0;
    while i < current_controllers.len()
        invariant
            i <= current_controllers@.len(),
            r@ == new_infos(old_controllers@, current_controllers@, i as int),
        decreases current_controllers@.len() - i,
    {
        let info = &current_controllers[i];
        let mut known = false;
        let mut k: usize = 0;
        while k < old_controllers.len()
            invariant
                i < current_controllers@.len(),
                k <= old_controllers@.len(),
                *info == current_controllers@[i as int],
                known == exists|m: int| 0 <= m < k && #[trigger] old_controllers@[m].spec_same_device(current_controllers@[i as int]),
            decreases old_controllers@.len() - k,
        {
            if old_controllers[k].is_same_device(info) {
                known = true;
            }
            k = k + 1;
        }
        if !known {
            r.push(info.clone());
        }
        i = i + 1;
    }
    r
}

/// Sets a scan against the known controllers.
pub fn list<D>(old_controllers: &Vec<PsMoveController<D>>, current_controllers: &Vec<ControllerInfo>) -> (r: ListingResult)
    ensures
        r.disconnected@ == gone_infos(old_controllers@, current_controllers@, old_controllers@.len() as int),
        r.connected@ == new_infos(old_controllers@, current_controllers@, current_controllers@.len() as int),
{
    let disconnected = get_disconnected_controllers(old_controllers, current_controllers);
    let connected = get_connected_controllers(old_controllers, current_controllers);
    ListingResult { disconnected, connected }
}

/// How to open the device behind one raw entry.
#[derive(Debug)]
pub struct ConnectionPlan {
    /// Open by path (a USB entry); otherwise by serial number.
    pub open_by_path: bool,
    pub serial_number: String,
    pub path: String,
    pub connection_type: ConnectionType,
}

/// Decides how to open a raw entry: its Bluetooth path if it has one, else
/// its USB path; an entry without serial number is a USB one and is opened by
/// path (when it has one), any other by serial number.
pub fn plan_connection(info: &ControllerInfo) -> (r: ConnectionPlan)
    ensures
        r.serial_number@ == info.serial_number@,
        r.path@ == if info.bt_path@.len() == 0 { info.usb_path@ } else { info.bt_path@ },
        r.connection_type == if info.serial_number@.len() == 0 {
            ConnectionType::Usb
        } else {
            ConnectionType::Bluetooth
        },
        r.open_by_path == (info.serial_number@.len() == 0 && r.path@.len() != 0),
{
    let path = if info.bt_path.as_str().is_empty() { info.usb_path.clone() } else { info.bt_path.clone() };
    let serial_empty = info.serial_number.as_str().is_empty();
    let connection_type = if serial_empty { ConnectionType::Usb } else { ConnectionType::Bluetooth };
    let open_by_path = serial_empty && !path.as_str().is_empty();
    ConnectionPlan { open_by_path, serial_number: info.serial_number.clone(), path, connection_type }
}

/// The controller for a device opened along `plan`. A USB controller keeps
/// the path as its USB path and takes the address read from the device (empty
/// when none could be read); a Bluetooth one keeps the path as its Bluetooth
/// path and is known by its serial number.
pub fn controller_from_plan<D>(device: D, plan: &ConnectionPlan, device_bt_address: Option<String>, now: u64) -> (r: PsMoveController<D>)
    ensures
        r.wf(),
        r.device == device,
        r.connection_type == plan.connection_type,
        r.info.serial_number@ == plan.serial_number@,
        plan.connection_type == ConnectionType::Usb ==> {
            &&& r.info.usb_path@ == plan.path@
            &&& r.info.bt_path@.len() == 0
            &&& r.bt_address@ == match device_bt_address {
                Some(a) => a@,
                None => Seq::<char>::empty(),
            }
        },
        plan.connection_type != ConnectionType::Usb ==> {
            &&& r.info.bt_path@ == plan.path@
            &&& r.info.usb_path@.len() == 0
            &&& r.bt_address@ == plan.serial_number@
        },
        r.led_effect.kind is Off,
        r.rumble_effect.kind is Off,
        r.battery == crate::models::BatteryLevel::Unknown,
{
    if plan.connection_type == ConnectionType::Usb {
        let bt_address = match device_bt_address {
            Some(a) => a,
            None => String::new(),
        };
        PsMoveController::new(
            device,
            plan.serial_number.as_str(),
            String::new(),
            plan.path.clone(),
            bt_address,
            plan.connection_type,
            now,
        )
    } else {
        PsMoveController::new(
            device,
            plan.serial_number.as_str(),
            plan.path.clone(),
            String::new(),
            plan.serial_number.clone(),
            plan.connection_type,
            now,
        )
    }
}

/// `s` with every occurrence of `from` replaced by `to`, matching from left
/// to right without overlaps; an empty pattern leaves `s` unchanged.
pub open spec fn replaced(s: Seq<char>, from: Seq<char>, to: Seq<char>) -> Seq<char>
    decreases s.len(),
{
    if from.len() == 0 || s.len() < from.len() {
        s
    } else if s.subrange(0, from.len() as int) == from {
        to + replaced(s.subrange(from.len() as int, s.len() as int), from, to)
    } else {
        seq![s[0]] + replaced(s.subrange(1, s.len() as int), from, to)
    }
}

/// Replaces every occurrence of `from` in `s` by `to` (see `replaced`).
pub fn replace_all(s: &str, from: &str, to: &str) -> (r: String)
    ensures
        r@ == replaced(s@, from@, to@),
{
    let n = s.unicode_len();
    let m = from.unicode_len();
    let mut out = String::new();
    if m == 0 {
        out.append(s);
        assert(out@ =~= s@);
        return out;
    }
    let mut i: usize = 0;
    assert(s@.subrange(0, n as int) =~= s@);
    while i < n
        invariant
            n == s@.len(),
            m == from@.len(),
            m > 0,
            i <= n,
            replaced(s@, from@, to@) == out@ + replaced(s@.subrange(i as int, n as int), from@, to@),
        decreases n - i,
    {
        let ghost rest = s@.subrange(i as int, n as int);
        if m <= n - i && occurs_at(s, from, i) {
            proof {
                assert(rest.subrange(0, m as int) =~= s@.subrange(i as int, i + m));
                assert(rest.subrange(m as int, rest.len() as int) =~= s@.subrange(i + m, n as int));
            }
            out.append(to);
            i = i + m;
        } else {
            let c = s.substring_char(i, i + 1);
            proof {
                let tail = rest.subrange(1, rest.len() as int);
                assert(tail =~= s@.subrange(i + 1, n as int));
                assert(c@ =~= seq![rest[0]]);
                if rest.len() < m {
                    assert(replaced(tail, from@, to@) == tail);
                    assert(rest =~= seq![rest[0]] + tail);
                } else {
                    assert(rest.subrange(0, m as int) =~= s@.subrange(i as int, i + m));
                }
            }
            out.append(c);
            i = i + 1;
        }
        proof {
            assert((out@ + replaced(s@.subrange(i as int, n as int), from@, to@)) =~= replaced(s@, from@, to@));
        }
    }
    assert(s@.subrange(n as int, n as int) =~= Seq::<char>::empty());
    assert(out@ + Seq::<char>::empty() =~= out@);
    out
}

/// Path of the sibling collection that answers the Bluetooth address request,
/// on the platform that splits a device into collections: the collection
/// marker and the interface number of the control collection are swapped for
/// those of the sibling.
pub fn sibling_collection_path(path: &str) -> (r: String)
    ensures
        r@ == replaced(
            replaced(path@, MAGIC_PATH@, BLUETOOTH_MAGIC_PATH@),
            MAGIC_INTERFACE@,
            BLUETOOTH_MAGIC_INTERFACE@,
        ),
{
    let marker_swapped = replace_all(path, MAGIC_PATH, BLUETOOTH_MAGIC_PATH);
    replace_all(marker_swapped.as_str(), MAGIC_INTERFACE, BLUETOOTH_MAGIC_INTERFACE)
}

} // verus!
