//! Host side of the HID report wire format. Feature reports carry a leading
//! Report ID byte (always 0); Input reports read from the device do not.

use vstd::prelude::*;

use crate::hid_tools::{self, u16_from_le_bytes};
use crate::protocol::MAX_BRIGHTNESS;

verus! {

/// Decodes a brightness report payload (little-endian).
pub fn brightness_from_bytes(bytes: [u8; 2]) -> (r: u16)
    ensures
        r == hid_tools::u16_from_le(bytes@[0], bytes@[1]),
{
    u16_from_le_bytes(bytes[0], bytes[1])
}

/// The Set_Feature report that sets the brightness to `value`, clamped to
/// [`MAX_BRIGHTNESS`]: Report ID 0, then the value little-endian.
pub fn brightness_feature_report(value: u16) -> (r: [u8; 3])
    ensures
        r@ == seq![0u8] + hid_tools::le_u16(
            if value <= MAX_BRIGHTNESS {
                value
            } else {
                MAX_BRIGHTNESS
            },
        ),
{
    let v = if value <= MAX_BRIGHTNESS {
        value
    } else {
        MAX_BRIGHTNESS
    };
    let r = [0u8, (v & 0xff) as u8, (v >> 8) as u8];
    assert(r@ =~= seq![0u8] + hid_tools::le_u16(v));
    r
}

/// The payload of a feature report buffer: everything after the Report ID.
pub fn feature_payload(buf: &[u8]) -> (r: &[u8])
    requires
        buf@.len() >= 1,
    ensures
        r@ == buf@.subrange(1, buf@.len() as int),
{
    vstd::slice::slice_subrange(buf, 1, buf.len())
}

/// Reading back the payload of the report that sets a brightness gives that
/// brightness, clamped to [`MAX_BRIGHTNESS`].
pub proof fn lemma_brightness_report_round_trip(value: u16)
    ensures
        ({
            let v = if value <= MAX_BRIGHTNESS {
                value
            } else {
                MAX_BRIGHTNESS
            };
            let report = seq![0u8] + hid_tools::le_u16(v);
            hid_tools::u16_from_le(report[1], report[2]) == v
        }),
{
    let v = if value <= MAX_BRIGHTNESS {
        value
    } else {
        MAX_BRIGHTNESS
    };
    hid_tools::lemma_le_u16_round_trip(v, 0, 0);
    let report = seq![0u8] + hid_tools::le_u16(v);
    assert(report[1] == hid_tools::le_u16(v)[0] && report[2] == hid_tools::le_u16(v)[1]);
}

} // verus!
