//! USB HID brightness control (VESA Monitor Control Class) and the device's
//! identifying strings.

use vstd::prelude::*;
use vstd::std_specs::iter::IteratorSpec;
use vstd::string::*;

use crate::hid_tools::{self, u16_from_le_bytes, Report};
use crate::protocol::{self, PowerTelemetry, ThermalTelemetry};

verus! {

/// Largest brightness value; the backlight duty scales against it.
pub const MAX_BRIGHTNESS: u16 = 1023;

/// Brightness in effect at power-up when nothing was saved.
pub const DEFAULT_BRIGHTNESS: u16 = 512;

/// USB string descriptor `bLength` is one byte: at most (255 - 2) / 2 = 126
/// UTF-16 code units, so the serial is cut to at most that many.
pub const MAX_SERIAL_LEN: usize = 126;

/// The brightness a value restored from flash takes effect as: clamped to
/// [`MAX_BRIGHTNESS`].
pub fn restore_brightness(value: u16) -> (r: u16)
    ensures
        r == if value <= MAX_BRIGHTNESS {
            value
        } else {
            MAX_BRIGHTNESS
        },
{
    if value <= MAX_BRIGHTNESS {
        value
    } else {
        MAX_BRIGHTNESS
    }
}

/// Kind of a HID report a host asks for or sends.
#[derive(Debug, Clone, Copy, PartialEq, Eq, Structural)]
pub enum ReportKind {
    Input,
    Output,
    Feature,
}

/// The brightness a host's Set_Report takes effect as, or `None` when the
/// request is rejected: only a Feature report of at least two bytes is
/// accepted, its first two bytes little-endian, clamped to
/// [`MAX_BRIGHTNESS`].
pub fn brightness_from_set_report(kind: ReportKind, data: &[u8]) -> (r: Option<u16>)
    ensures
        r is Some <==> (kind == ReportKind::Feature && data@.len() >= 2),
        r matches Some(v) ==> v == if hid_tools::u16_from_le(data@[0], data@[1]) <= MAX_BRIGHTNESS {
            hid_tools::u16_from_le(data@[0], data@[1])
        } else {
            MAX_BRIGHTNESS
        },
{
    match kind {
        ReportKind::Feature => {
            if data.len() >= 2 {
                Some(restore_brightness(u16_from_le_bytes(data[0], data[1])))
            } else {
                None
            }
        },
        _ => None,
    }
}

/// The bytes a Get_Report for brightness answers with (Feature or Input);
/// other report kinds get no answer.
pub fn brightness_get_report(kind: ReportKind, brightness: u16) -> (r: Option<[u8; 2]>)
    ensures
        r is Some <==> kind != ReportKind::Output,
        r matches Some(b) ==> b@ == hid_tools::le_u16(brightness),
{
    match kind {
        ReportKind::Output => None,
        _ => {
            let mut buf = [0u8; 2];
            let mut report = Report::new(&mut buf);
            report.field(brightness);
            assert(report.buf@ =~= hid_tools::le_u16(brightness));
            Some(buf)
        },
    }
}

/// The bytes a Get_Report on the power interface answers with (Feature or
/// Input): the latest power telemetry in its wire format; other report
/// kinds get no answer.
pub fn power_get_report(kind: ReportKind, power: PowerTelemetry) -> (r: Option<[u8; 8]>)
    ensures
        r is Some <==> kind != ReportKind::Output,
        r matches Some(b) ==> b@ == protocol::power_bytes(power),
{
    match kind {
        ReportKind::Output => None,
        _ => Some(power.to_bytes()),
    }
}

/// The bytes a Get_Report on the thermal interface answers with (Feature or
/// Input): the latest thermal telemetry in its wire format; other report
/// kinds get no answer.
pub fn thermal_get_report(kind: ReportKind, thermal: ThermalTelemetry) -> (r: Option<[u8; 4]>)
    ensures
        r is Some <==> kind != ReportKind::Output,
        r matches Some(b) ==> b@ == protocol::thermal_bytes(thermal),
{
    match kind {
        ReportKind::Output => None,
        _ => Some(thermal.to_bytes()),
    }
}

/// The bytes a Get_Report on the single-report PSU interface answers with
/// (Feature or Input): voltage, current and temperature, each two bytes
/// little-endian; other report kinds get no answer.
pub fn psu_get_report(
    kind: ReportKind,
    voltage_mv: u16,
    current_ma: u16,
    temperature_decic: i16,
) -> (r: Option<[u8; 6]>)
    ensures
        r is Some <==> kind != ReportKind::Output,
        r matches Some(b) ==> b@ == hid_tools::le_u16(voltage_mv) + hid_tools::le_u16(current_ma)
            + hid_tools::le_u16(temperature_decic as u16),
{
    match kind {
        ReportKind::Output => None,
        _ => {
            let mut buf = [0u8; 6];
            let mut report = Report::new(&mut buf);
            report.field(voltage_mv);
            report.field(current_ma);
            report.field(temperature_decic);
            assert(report.buf@ =~= hid_tools::le_u16(voltage_mv) + hid_tools::le_u16(current_ma)
                + hid_tools::le_u16(temperature_decic as u16));
            Some(buf)
        },
    }
}

/// UTF-16 code units of a char: two for a char outside the Basic
/// Multilingual Plane (a surrogate pair), one otherwise.
pub open spec fn utf16_width(c: char) -> nat {
    if c as u32 >= 0x10000 {
        2
    } else {
        1
    }
}

/// UTF-16 code units of a char sequence.
pub open spec fn utf16_len(cs: Seq<char>) -> nat
    decreases cs.len(),
{
    if cs.len() == 0 {
        0
    } else {
        utf16_len(cs.drop_last()) + utf16_width(cs.last())
    }
}

/// A longer prefix never has fewer UTF-16 code units.
proof fn lemma_utf16_len_prefix_monotone(cs: Seq<char>, i: int, j: int)
    requires
        0 <= i <= j <= cs.len(),
    ensures
        utf16_len(cs.take(i)) <= utf16_len(cs.take(j)),
    decreases j - i,
{
    if i < j {
        lemma_utf16_len_prefix_monotone(cs, i, j - 1);
        assert(cs.take(j).drop_last() =~= cs.take(j - 1));
    }
}

/// The serial as a USB string descriptor can hold it: the longest prefix of
/// `s` (in chars, so it ends on a char boundary) of at most
/// [`MAX_SERIAL_LEN`] UTF-16 code units. A serial that fits is kept whole.
pub fn clamp_to_string_descriptor(s: &str) -> (r: &str)
    ensures
        r@.len() <= s@.len(),
        r@ == s@.take(r@.len() as int),
        utf16_len(r@) <= MAX_SERIAL_LEN,
        r@.len() < s@.len() ==> utf16_len(s@.take(r@.len() as int + 1)) > MAX_SERIAL_LEN,
        utf16_len(s@) <= MAX_SERIAL_LEN ==> r@ == s@,
{
    broadcast use vstd::string::group_string_axioms;

    let ghost cs = s@;
    let mut it = s.chars();
    let mut units: usize = 0;
    let mut n: usize = 0;
    loop
        invariant_except_break
            it.remaining() == cs.skip(n as int),
        invariant
            n <= cs.len(),
            n <= units,
            units == utf16_len(cs.take(n as int)),
            units <= MAX_SERIAL_LEN,
        ensures
            n <= cs.len(),
            units == utf16_len(cs.take(n as int)),
            units <= MAX_SERIAL_LEN,
            n < cs.len() ==> utf16_len(cs.take(n + 1)) > MAX_SERIAL_LEN,
        decreases cs.len() - n,
    {
        let next = it.next();
        match next {
            None => {
                assert(cs.skip(n as int).len() == 0);
                break;
            },
            Some(c) => {
                assert(c == cs[n as int]);
                assert(cs.take(n + 1).drop_last() =~= cs.take(n as int));
                let w: usize = if (c as u32) >= 0x10000 {
                    2
                } else {
                    1
                };
                if units + w > MAX_SERIAL_LEN {
                    break;
                }
                assert(cs.skip(n as int).drop_first() =~= cs.skip(n + 1));
                units = units + w;
                n = n + 1;
            },
        }
    }
    let r = s.substring_char(0, n);
    proof {
        assert(r@ =~= s@.take(n as int));
        if n < cs.len() && utf16_len(cs) <= MAX_SERIAL_LEN {
            lemma_utf16_len_prefix_monotone(cs, n + 1, cs.len() as int);
            assert(cs.take(cs.len() as int) =~= cs);
        }
        if n == cs.len() {
            assert(cs.take(n as int) =~= cs);
        }
    }
    r
}

/// Upper-case hex digit of a nibble.
pub open spec fn hex_digit(n: u8) -> u8 {
    if n < 10 {
        (0x30 + n) as u8
    } else {
        (0x41 + n - 10) as u8
    }
}

/// Upper-case hex encoding of the flash chip's 64-bit unique ID, most
/// significant nibble of each byte first: the board's USB serial number.
pub fn hex_encode(bytes: [u8; 8]) -> (r: [u8; 16])
    ensures
        forall|k: int|
            0 <= k < 8 ==> r@[2 * k] == hex_digit(bytes@[k] >> 4u8) && r@[2 * k + 1] == hex_digit(
                bytes@[k] & 0x0F,
            ),
{
    let digits: [u8; 16] = [
        0x30,
        0x31,
        0x32,
        0x33,
        0x34,
        0x35,
        0x36,
        0x37,
        0x38,
        0x39,
        0x41,
        0x42,
        0x43,
        0x44,
        0x45,
        0x46,
    ];
    let mut out = [0u8; 16];
    let mut k: usize = 0;
    while k < 8
        invariant
            k <= 8,
            out@.len() == 16,
            forall|m: int| 0 <= m < 16 ==> #[trigger] digits@[m] == hex_digit(m as u8),
            forall|m: int|
                0 <= m < k ==> out@[2 * m] == hex_digit(bytes@[m] >> 4u8) && out@[2 * m + 1]
                    == hex_digit(bytes@[m] & 0x0F),
        decreases 8 - k,
    {
        let b = bytes[k];
        let hi = b >> 4;
        let lo = b & 0x0F;
        assert(hi < 16 && lo < 16) by (bit_vector)
            requires
                hi == b >> 4u8,
                lo == b & 0x0F,
        ;
        assert(digits@[hi as int] == hex_digit(hi));
        assert(digits@[lo as int] == hex_digit(lo));
        out.set(2 * k, digits[hi as usize]);
        out.set(2 * k + 1, digits[lo as usize]);
        k = k + 1;
    }
    out
}

} // verus!
