//! USB identifiers, report lengths and the telemetry wire structs shared by
//! the board and the host.

use vstd::prelude::*;

use crate::hid_tools::{self, u16_from_le_bytes, u32_from_le_bytes, Report};

verus! {

/// pid.codes shared testing vendor ID.
pub const VENDOR_ID: u16 = 0x1209;

/// pid.codes shared testing product ID.
pub const PRODUCT_ID: u16 = 0xCC02;

/// Largest brightness value the board accepts.
pub const MAX_BRIGHTNESS: u16 = 1023;

pub const BRIGHTNESS_REPORT_LEN: usize = 2;

pub const POWER_REPORT_LEN: usize = 8;

pub const THERMAL_REPORT_LEN: usize = 4;

pub const CHIP_TEMP_REPORT_LEN: usize = 2;

/// Voltage, current and power of the PSU rail.
#[derive(Clone, Copy, Debug, PartialEq, Eq, Structural)]
pub struct PowerTelemetry {
    pub voltage_mv: u16,
    /// Sign depends on IN+/IN- wiring.
    pub current_ma: i16,
    pub power_mw: u32,
}

/// Report bytes of a power telemetry value: voltage, current, power, each
/// little-endian.
pub open spec fn power_bytes(t: PowerTelemetry) -> Seq<u8> {
    hid_tools::le_u16(t.voltage_mv) + hid_tools::le_u16(t.current_ma as u16) + hid_tools::le_u32(t.power_mw)
}

/// The power telemetry value that report bytes `b` (length 8) encode.
pub open spec fn power_from_bytes(b: Seq<u8>) -> PowerTelemetry {
    PowerTelemetry {
        voltage_mv: hid_tools::u16_from_le(b[0], b[1]),
        current_ma: hid_tools::u16_from_le(b[2], b[3]) as i16,
        power_mw: hid_tools::u32_from_le(b[4], b[5], b[6], b[7]),
    }
}

impl Default for PowerTelemetry {
    fn default() -> (r: Self)
        ensures
            r == (PowerTelemetry { voltage_mv: 0, current_ma: 0, power_mw: 0 }),
    {
        PowerTelemetry { voltage_mv: 0, current_ma: 0, power_mw: 0 }
    }
}

impl PowerTelemetry {
    pub fn to_bytes(self) -> (r: [u8; POWER_REPORT_LEN])
        ensures
            r@ == power_bytes(self),
    {
        let mut buf = [0u8; POWER_REPORT_LEN];
        let mut report = Report::new(&mut buf);
        report.field(self.voltage_mv);
        report.field(self.current_ma);
        report.field(self.power_mw);
        assert(report.buf@ =~= power_bytes(self));
        buf
    }

    pub fn from_bytes(bytes: [u8; POWER_REPORT_LEN]) -> (r: Self)
        ensures
            r == power_from_bytes(bytes@),
    {
        Self {
            voltage_mv: u16_from_le_bytes(bytes[0], bytes[1]),
            current_ma: u16_from_le_bytes(bytes[2], bytes[3]) as i16,
            power_mw: u32_from_le_bytes(bytes[4], bytes[5], bytes[6], bytes[7]),
        }
    }
}

/// Temperatures of the PSU's internal and first external diode, in tenths of
/// a degree C.
#[derive(Clone, Copy, Debug, PartialEq, Eq, Structural)]
pub struct ThermalTelemetry {
    pub internal_decic: i16,
    pub external1_decic: i16,
}

/// Report bytes of a thermal telemetry value: internal, then external 1, each
/// little-endian.
pub open spec fn thermal_bytes(t: ThermalTelemetry) -> Seq<u8> {
    hid_tools::le_u16(t.internal_decic as u16) + hid_tools::le_u16(t.external1_decic as u16)
}

/// The thermal telemetry value that report bytes `b` (length 4) encode.
pub open spec fn thermal_from_bytes(b: Seq<u8>) -> ThermalTelemetry {
    ThermalTelemetry {
        internal_decic: hid_tools::u16_from_le(b[0], b[1]) as i16,
        external1_decic: hid_tools::u16_from_le(b[2], b[3]) as i16,
    }
}

impl Default for ThermalTelemetry {
    fn default() -> (r: Self)
        ensures
            r == (ThermalTelemetry { internal_decic: 0, external1_decic: 0 }),
    {
        ThermalTelemetry { internal_decic: 0, external1_decic: 0 }
    }
}

impl ThermalTelemetry {
    pub fn to_bytes(self) -> (r: [u8; THERMAL_REPORT_LEN])
        ensures
            r@ == thermal_bytes(self),
    {
        let mut buf = [0u8; THERMAL_REPORT_LEN];
        let mut report = Report::new(&mut buf);
        report.field(self.internal_decic);
        report.field(self.external1_decic);
        assert(report.buf@ =~= thermal_bytes(self));
        buf
    }

    pub fn from_bytes(bytes: [u8; THERMAL_REPORT_LEN]) -> (r: Self)
        ensures
            r == thermal_from_bytes(bytes@),
    {
        Self {
            internal_decic: u16_from_le_bytes(bytes[0], bytes[1]) as i16,
            external1_decic: u16_from_le_bytes(bytes[2], bytes[3]) as i16,
        }
    }
}

/// Temperature of the board's own microcontroller die, in tenths of a
/// degree C.
#[derive(Clone, Copy, Debug, PartialEq, Eq, Structural)]
pub struct ChipTemperature {
    pub decic: i16,
}

/// Report bytes of a chip temperature: the temperature little-endian.
pub open spec fn chip_temp_bytes(t: ChipTemperature) -> Seq<u8> {
    hid_tools::le_u16(t.decic as u16)
}

/// The chip temperature that report bytes `b` (length 2) encode.
pub open spec fn chip_temp_from_bytes(b: Seq<u8>) -> ChipTemperature {
    ChipTemperature { decic: hid_tools::u16_from_le(b[0], b[1]) as i16 }
}

impl Default for ChipTemperature {
    fn default() -> (r: Self)
        ensures
            r == (ChipTemperature { decic: 0 }),
    {
        ChipTemperature { decic: 0 }
    }
}

impl ChipTemperature {
    pub fn to_bytes(self) -> (r: [u8; CHIP_TEMP_REPORT_LEN])
        ensures
            r@ == chip_temp_bytes(self),
    {
        let mut buf = [0u8; CHIP_TEMP_REPORT_LEN];
        let mut report = Report::new(&mut buf);
        report.field(self.decic);
        assert(report.buf@ =~= chip_temp_bytes(self));
        buf
    }

    pub fn from_bytes(bytes: [u8; CHIP_TEMP_REPORT_LEN]) -> (r: Self)
        ensures
            r == chip_temp_from_bytes(bytes@),
    {
        Self { decic: u16_from_le_bytes(bytes[0], bytes[1]) as i16 }
    }
}

proof fn lemma_i16_u16_casts(v: i16, w: u16)
    ensures
        (v as u16) as i16 == v,
        (w as i16) as u16 == w,
{
    assert((v as u16) as i16 == v) by (bit_vector);
    assert((w as i16) as u16 == w) by (bit_vector);
}

/// Decoding the report bytes of any power telemetry value gives that value
/// back, and re-encoding any decoded 8-byte report gives the same bytes.
pub proof fn lemma_power_round_trip(t: PowerTelemetry, b: Seq<u8>)
    requires
        b.len() == POWER_REPORT_LEN,
    ensures
        power_from_bytes(power_bytes(t)) == t,
        power_bytes(power_from_bytes(b)) == b,
{
    let e = power_bytes(t);
    hid_tools::lemma_le_u16_round_trip(t.voltage_mv, b[0], b[1]);
    hid_tools::lemma_le_u16_round_trip(t.current_ma as u16, b[2], b[3]);
    hid_tools::lemma_le_u32_round_trip(t.power_mw, b[4], b[5], b[6], b[7]);
    lemma_i16_u16_casts(t.current_ma, hid_tools::u16_from_le(b[2], b[3]));
    assert(e[0] == hid_tools::le_u16(t.voltage_mv)[0] && e[1] == hid_tools::le_u16(t.voltage_mv)[1]);
    assert(e[2] == hid_tools::le_u16(t.current_ma as u16)[0] && e[3] == hid_tools::le_u16(t.current_ma as u16)[1]);
    assert(e[4] == hid_tools::le_u32(t.power_mw)[0] && e[5] == hid_tools::le_u32(t.power_mw)[1]);
    assert(e[6] == hid_tools::le_u32(t.power_mw)[2] && e[7] == hid_tools::le_u32(t.power_mw)[3]);
    assert(power_bytes(power_from_bytes(b)) =~= b);
}

/// Decoding the report bytes of any thermal telemetry value gives that value
/// back, and re-encoding any decoded 4-byte report gives the same bytes.
pub proof fn lemma_thermal_round_trip(t: ThermalTelemetry, b: Seq<u8>)
    requires
        b.len() == THERMAL_REPORT_LEN,
    ensures
        thermal_from_bytes(thermal_bytes(t)) == t,
        thermal_bytes(thermal_from_bytes(b)) == b,
{
    let e = thermal_bytes(t);
    hid_tools::lemma_le_u16_round_trip(t.internal_decic as u16, b[0], b[1]);
    hid_tools::lemma_le_u16_round_trip(t.external1_decic as u16, b[2], b[3]);
    lemma_i16_u16_casts(t.internal_decic, hid_tools::u16_from_le(b[0], b[1]));
    lemma_i16_u16_casts(t.external1_decic, hid_tools::u16_from_le(b[2], b[3]));
    assert(e[0] == hid_tools::le_u16(t.internal_decic as u16)[0] && e[1] == hid_tools::le_u16(t.internal_decic as u16)[1]);
    assert(e[2] == hid_tools::le_u16(t.external1_decic as u16)[0] && e[3] == hid_tools::le_u16(
        t.external1_decic as u16,
    )[1]);
    assert(thermal_bytes(thermal_from_bytes(b)) =~= b);
}

/// Decoding the report bytes of any chip temperature gives it back, and
/// re-encoding any decoded 2-byte report gives the same bytes.
pub proof fn lemma_chip_temp_round_trip(t: ChipTemperature, b: Seq<u8>)
    requires
        b.len() == CHIP_TEMP_REPORT_LEN,
    ensures
        chip_temp_from_bytes(chip_temp_bytes(t)) == t,
        chip_temp_bytes(chip_temp_from_bytes(b)) == b,
{
    hid_tools::lemma_le_u16_round_trip(t.decic as u16, b[0], b[1]);
    lemma_i16_u16_casts(t.decic, hid_tools::u16_from_le(b[0], b[1]));
    assert(chip_temp_bytes(chip_temp_from_bytes(b)) =~= b);
}

/// The two's-complement 16-bit pattern of a signed value.
pub open spec fn twos_complement_16(v: i16) -> int {
    if v >= 0 {
        v as int
    } else {
        v as int + 0x10000
    }
}

proof fn lemma_i16_as_u16(v: i16)
    ensures
        (v as u16) as int == twos_complement_16(v),
{
    assert((v as u16) as int == if v >= 0 {
        v as int
    } else {
        v as int + 0x10000
    }) by (bit_vector);
}

/// The report layouts (firmware report descriptors): a power report is
/// voltage (bytes 0-1), current (bytes 2-3, two's complement) and power
/// (bytes 4-7); a thermal report is the internal (bytes 0-1) then the
/// external 1 (bytes 2-3) temperature; a chip temperature report is the
/// temperature (bytes 0-1); every field least significant byte first.
pub proof fn lemma_report_layouts(p: PowerTelemetry, t: ThermalTelemetry, c: ChipTemperature)
    ensures
        ({
            let b = power_bytes(p);
            &&& b.len() == POWER_REPORT_LEN
            &&& b[0] as int + 256 * b[1] as int == p.voltage_mv
            &&& b[2] as int + 256 * b[3] as int == twos_complement_16(p.current_ma)
            &&& b[4] as int + 256 * b[5] as int + 65536 * b[6] as int + 16777216 * b[7] as int
                == p.power_mw
        }),
        ({
            let b = thermal_bytes(t);
            &&& b.len() == THERMAL_REPORT_LEN
            &&& b[0] as int + 256 * b[1] as int == twos_complement_16(t.internal_decic)
            &&& b[2] as int + 256 * b[3] as int == twos_complement_16(t.external1_decic)
        }),
        ({
            let b = chip_temp_bytes(c);
            &&& b.len() == CHIP_TEMP_REPORT_LEN
            &&& b[0] as int + 256 * b[1] as int == twos_complement_16(c.decic)
        }),
{
    hid_tools::lemma_le_weights(p.voltage_mv, p.power_mw, 0, 0, 0, 0);
    hid_tools::lemma_le_weights(p.current_ma as u16, 0, 0, 0, 0, 0);
    hid_tools::lemma_le_weights(t.internal_decic as u16, 0, 0, 0, 0, 0);
    hid_tools::lemma_le_weights(t.external1_decic as u16, 0, 0, 0, 0, 0);
    hid_tools::lemma_le_weights(c.decic as u16, 0, 0, 0, 0, 0);
    lemma_i16_as_u16(p.current_ma);
    lemma_i16_as_u16(t.internal_decic);
    lemma_i16_as_u16(t.external1_decic);
    lemma_i16_as_u16(c.decic);
    let pb = power_bytes(p);
    assert(pb[0] == hid_tools::le_u16(p.voltage_mv)[0] && pb[1] == hid_tools::le_u16(p.voltage_mv)[1]);
    assert(pb[2] == hid_tools::le_u16(p.current_ma as u16)[0] && pb[3] == hid_tools::le_u16(p.current_ma as u16)[1]);
    assert(pb[4] == hid_tools::le_u32(p.power_mw)[0] && pb[5] == hid_tools::le_u32(p.power_mw)[1]);
    assert(pb[6] == hid_tools::le_u32(p.power_mw)[2] && pb[7] == hid_tools::le_u32(p.power_mw)[3]);
    let tb = thermal_bytes(t);
    assert(tb[0] == hid_tools::le_u16(t.internal_decic as u16)[0] && tb[1] == hid_tools::le_u16(t.internal_decic as u16)[1]);
    assert(tb[2] == hid_tools::le_u16(t.external1_decic as u16)[0] && tb[3] == hid_tools::le_u16(t.external1_decic as u16)[1]);
}

} // verus!
