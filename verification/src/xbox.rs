//! Controller-side definitions: the button bitmask, the decoded input
//! sample, the fixed-layout HID report decoder, the advertisement
//! classifier, and the discovered HID service client handles.

use vstd::prelude::*;

verus! {

/// Bit position of button A in the 24-bit report mask.
pub const BUTTON_A: u32 = 1u32 << 0;
/// Bit position of button B.
pub const BUTTON_B: u32 = 1u32 << 1;
/// Bit position of button X.
pub const BUTTON_X: u32 = 1u32 << 3;
/// Bit position of button Y.
pub const BUTTON_Y: u32 = 1u32 << 4;
/// Bit position of the left bumper.
pub const BUTTON_LB: u32 = 1u32 << 6;
/// Bit position of the right bumper.
pub const BUTTON_RB: u32 = 1u32 << 7;
/// Bit position of the first action button.
pub const BUTTON_ACTION_1: u32 = 1u32 << 10;
/// Bit position of the menu button.
pub const BUTTON_MENU: u32 = 1u32 << 11;
/// Bit position of the guide button.
pub const BUTTON_XBOX: u32 = 1u32 << 12;
/// Bit position of the left stick click.
pub const BUTTON_LEFT_STICK: u32 = 1u32 << 13;
/// Bit position of the right stick click.
pub const BUTTON_RIGHT_STICK: u32 = 1u32 << 14;
/// Bit position of the second action button.
pub const BUTTON_ACTION_2: u32 = 1u32 << 16;

/// Union of every defined button bit; the in-between positions are
/// reserved by the peripheral's report format.
pub const BUTTON_ALL: u32 = BUTTON_A | BUTTON_B | BUTTON_X | BUTTON_Y | BUTTON_LB | BUTTON_RB
    | BUTTON_ACTION_1 | BUTTON_MENU | BUTTON_XBOX | BUTTON_LEFT_STICK | BUTTON_RIGHT_STICK
    | BUTTON_ACTION_2;

/// Named flags for the discrete buttons, kept as a masked bitset. Bits
/// outside `BUTTON_ALL` are never set by the decoder.
#[derive(Clone, Copy, PartialEq, Eq, Structural, Debug)]
pub struct ButtonFlags {
    /// The raw bitset.
    pub bits: u32,
}

impl ButtonFlags {
    /// Build a flag set from a raw mask, ignoring (dropping) unknown bits.
    pub fn from_bits_truncate(bits: u32) -> (r: ButtonFlags)
        ensures
            r.bits == bits & BUTTON_ALL,
    {
        ButtonFlags { bits: bits & BUTTON_ALL }
    }

    /// An empty flag set: no button pressed.
    pub fn empty() -> (r: ButtonFlags)
        ensures
            r.bits == 0u32,
    {
        ButtonFlags { bits: 0 }
    }

    /// Whether every bit of `mask` is set.
    pub fn contains(&self, mask: u32) -> (r: bool)
        ensures
            r == (self.bits & mask == mask),
    {
        self.bits & mask == mask
    }
}

/// One decoded input report: two joystick pairs, two triggers, and the
/// button flags. Immutable value object, produced once per notification.
#[derive(Clone, Copy, PartialEq, Eq, Debug)]
pub struct JoystickData {
    /// First joystick, (x, y).
    pub j1: (u16, u16),
    /// Second joystick, (x, y).
    pub j2: (u16, u16),
    /// First trigger axis.
    pub t1: u16,
    /// Second trigger axis.
    pub t2: u16,
    /// Pressed buttons.
    pub buttons: ButtonFlags,
}

/// Length of the fixed-layout HID input report in bytes.
pub const HID_REPORT_LEN: usize = 16;

/// The little-endian 16-bit value stored at bytes `b0` (low) and `b1` (high).
pub open spec fn le16(b0: u8, b1: u8) -> int {
    b0 + 256 * b1
}

/// The little-endian 24-bit value stored at bytes `b0`, `b1`, `b2`.
pub open spec fn le24(b0: u8, b1: u8, b2: u8) -> int {
    b0 + 256 * b1 + 65536 * b2
}

/// The sample a well-formed (>= 16 byte) report decodes to. Byte 12 is
/// reserved by the report format and skipped.
pub open spec fn spec_decode(rep: Seq<u8>) -> JoystickData
    recommends
        rep.len() >= HID_REPORT_LEN,
{
    JoystickData {
        j1: ((le16(rep[0], rep[1]) as u16), (le16(rep[2], rep[3]) as u16)),
        j2: ((le16(rep[4], rep[5]) as u16), (le16(rep[6], rep[7]) as u16)),
        t1: le16(rep[8], rep[9]) as u16,
        t2: le16(rep[10], rep[11]) as u16,
        buttons: ButtonFlags { bits: (le24(rep[13], rep[14], rep[15]) as u32) & BUTTON_ALL },
    }
}

/// Read the 16-bit little-endian field at `off`.
fn read_u16_at(rep: &[u8], off: usize) -> (r: u16)
    requires
        off + 2 <= rep@.len(),
    ensures
        r == le16(rep@[off as int], rep@[off + 1]),
{
    rep[off] as u16 + (rep[off + 1] as u16) * 256
}

/// Decode a HID input report. Fails exactly when the buffer is shorter
/// than the fixed report length; never reads past it and never panics on
/// malformed content.
pub fn decode_hid_report(rep: &[u8]) -> (r: Option<JoystickData>)
    ensures
        rep@.len() >= HID_REPORT_LEN ==> r == Some(spec_decode(rep@)),
        rep@.len() < HID_REPORT_LEN ==> r is None,
{
    if rep.len() < HID_REPORT_LEN {
        return None;
    }

    let x1 = read_u16_at(rep, 0);
    let y1 = read_u16_at(rep, 2);
    let x2 = read_u16_at(rep, 4);
    let y2 = read_u16_at(rep, 6);
    let t1 = read_u16_at(rep, 8);
    let t2 = read_u16_at(rep, 10);

    let button_mask: u32 = rep[13] as u32 + (rep[14] as u32) * 256 + (rep[15] as u32) * 65536;

    Some(JoystickData {
        j1: (x1, y1),
        j2: (x2, y2),
        t1,
        t2,
        buttons: ButtonFlags::from_bits_truncate(button_mask),
    })
}

/// 16-bit UUID of the Human-Interface-Device GATT service.
pub const HID_SERVICE_UUID: u16 = 0x1812;
/// 16-bit UUID of the report-map characteristic.
pub const HID_REPORT_MAP_UUID: u16 = 0x2a4b;
/// 16-bit UUID of the input-report characteristic (readable, notifying).
pub const HID_REPORT_UUID: u16 = 0x2a4d;

/// Handles discovered for the controller's HID service: the report-map
/// characteristic, the report characteristic, and the report's
/// client-characteristic-configuration descriptor that enables
/// notifications.
#[derive(Clone, Copy, PartialEq, Eq, Structural, Debug)]
pub struct XboxHidServiceClient {
    /// Value handle of the report-map characteristic.
    pub hid_report_map_handle: u16,
    /// Value handle of the input-report characteristic.
    pub hid_report_handle: u16,
    /// Handle of the input-report characteristic's configuration
    /// descriptor.
    pub hid_report_cccd_handle: u16,
}

impl XboxHidServiceClient {
    /// The little-endian descriptor value that a subscription write
    /// carries: bit 0 turns notifications on.
    pub fn cccd_write_value(notifications: bool) -> (v: u16)
        ensures
            v == if notifications { 1u16 } else { 0u16 },
    {
        if notifications {
            1
        } else {
            0
        }
    }
}

/// Advertising-record type for manufacturer-specific data.
pub const TYPE_MANUFACTURER_SPECIFIC_DATA: u8 = 0xFF;
/// Advertising-record type for an incomplete list of 16-bit service UUIDs.
pub const TYPE_PARTIAL_16BIT_UUIDS: u8 = 0x02;
/// Advertising-record type for a complete list of 16-bit service UUIDs.
pub const TYPE_COMPLETE_16BIT_UUIDS: u8 = 0x03;

/// A well-formed advertising record starts at `i`: at least a length and
/// a type byte remain, the declared length is nonzero, and it does not
/// run past the end of the payload. Scanning stops at the first position
/// where this fails.
pub open spec fn valid_record_at(p: Seq<u8>, i: int) -> bool {
    &&& i + 2 <= p.len()
    &&& p[i] >= 1
    &&& i + 1 + p[i] <= p.len()
}

/// The record at `i` is a manufacturer-specific-data record whose first
/// two payload bytes are the vendor code 0x0006 (little endian).
pub open spec fn microsoft_record_at(p: Seq<u8>, i: int) -> bool
    recommends
        valid_record_at(p, i),
{
    &&& p[i + 1] == TYPE_MANUFACTURER_SPECIFIC_DATA
    &&& p[i] >= 3
    &&& p[i + 2] == 0x06
    &&& p[i + 3] == 0x00
}

/// The two payload bytes at `j` spell the HID service UUID 0x1812
/// (little endian).
pub open spec fn hid_pair_at(p: Seq<u8>, j: int) -> bool {
    p[j] == 0x12 && p[j + 1] == 0x18
}

/// The record at `i` lists 16-bit service UUIDs (partial or complete)
/// and one of its complete 2-byte chunks is the HID service UUID 0x1812
/// (little endian).
pub open spec fn hid_uuid_record_at(p: Seq<u8>, i: int) -> bool
    recommends
        valid_record_at(p, i),
{
    &&& (p[i + 1] == TYPE_PARTIAL_16BIT_UUIDS || p[i + 1] == TYPE_COMPLETE_16BIT_UUIDS)
    &&& exists|k: int|
        0 <= k && 2 * k + 2 <= p[i] - 1 && #[trigger] hid_pair_at(p, i + 2 + 2 * k)
}

/// Some record from `i` on is a matching manufacturer record, scanning
/// record by record and stopping at the first malformed one.
pub open spec fn has_microsoft_record(p: Seq<u8>, i: int) -> bool
    decreases p.len() - i,
    when 0 <= i <= p.len()
{
    if !valid_record_at(p, i) {
        false
    } else {
        microsoft_record_at(p, i) || has_microsoft_record(p, i + 1 + p[i])
    }
}

/// Some record from `i` on advertises the HID service UUID, scanning
/// record by record and stopping at the first malformed one.
pub open spec fn has_hid_uuid_record(p: Seq<u8>, i: int) -> bool
    decreases p.len() - i,
    when 0 <= i <= p.len()
{
    if !valid_record_at(p, i) {
        false
    } else {
        hid_uuid_record_at(p, i) || has_hid_uuid_record(p, i + 1 + p[i])
    }
}

/// Classify an advertisement payload: it comes from a compatible input
/// device exactly when it carries both the vendor's manufacturer-specific
/// record and a 16-bit-UUID record naming the HID service. Malformed
/// records end the scan without a match for the remainder and never make
/// the classifier read out of bounds or panic.
pub fn is_xbox_controller(packet: &[u8]) -> (r: bool)
    ensures
        r == (has_microsoft_record(packet@, 0) && has_hid_uuid_record(packet@, 0)),
{
    let n = packet.len();
    let mut i: usize = 0;
    let mut is_microsoft = false;
    let mut is_hid = false;

    loop
        invariant
            i <= n,
            n == packet@.len(),
            (is_microsoft || has_microsoft_record(packet@, i as int)) == has_microsoft_record(
                packet@,
                0,
            ),
            (is_hid || has_hid_uuid_record(packet@, i as int)) == has_hid_uuid_record(packet@, 0),
        ensures
            is_microsoft == has_microsoft_record(packet@, 0),
            is_hid == has_hid_uuid_record(packet@, 0),
        decreases n - i,
    {
        let remaining = n - i;
        if remaining < 2 {
            proof {
                assert(!valid_record_at(packet@, i as int));
            }
            break;
        }

        let data_len = packet[i] as usize;
        if data_len == 0 || data_len > remaining - 1 {
            proof {
                assert(!valid_record_at(packet@, i as int));
            }
            break;
        }

        let t = packet[i + 1];
        if t == TYPE_MANUFACTURER_SPECIFIC_DATA {
            if data_len >= 3 && packet[i + 2] == 0x06 && packet[i + 3] == 0x00 {
                is_microsoft = true;
            }
        } else if t == TYPE_PARTIAL_16BIT_UUIDS || t == TYPE_COMPLETE_16BIT_UUIDS {
            let mut k: usize = 0;
            let ghost was_hid = is_hid;
            while 2 * k + 2 <= data_len - 1
                invariant
                    0 <= k,
                    2 * (k - 1) + 2 <= data_len - 1,
                    data_len >= 1,
                    i + 1 + data_len <= n,
                    n == packet@.len(),
                    is_hid == (was_hid || exists|k2: int|
                        0 <= k2 < k && 2 * k2 + 2 <= data_len - 1 && #[trigger] hid_pair_at(
                            packet@,
                            i + 2 + 2 * k2,
                        )),
                decreases data_len - 2 * k,
            {
                if packet[i + 2 + 2 * k] == 0x12 && packet[i + 3 + 2 * k] == 0x18 {
                    is_hid = true;
                    assert(0 <= k < k + 1 && 2 * (k as int) + 2 <= data_len - 1 && hid_pair_at(
                        packet@,
                        i + 2 + 2 * (k as int),
                    ));
                }
                k = k + 1;
            }
            proof {
                let p = packet@;
                let ii = i as int;
                assert(p[ii] == data_len);
                if exists|k2: int|
                    0 <= k2 && 2 * k2 + 2 <= p[ii] - 1 && #[trigger] hid_pair_at(p, ii + 2 + 2 * k2) {
                    let k2 = choose|k2: int|
                        0 <= k2 && 2 * k2 + 2 <= p[ii] - 1 && #[trigger] hid_pair_at(
                            p,
                            ii + 2 + 2 * k2,
                        );
                    assert(k2 < k);
                }
            }
        }

        i = i + 1 + data_len;
    }

    is_microsoft && is_hid
}

} // verus!
