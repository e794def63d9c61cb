//! Configuration register (0x00) fields, datasheet S8.1 (TI SBOS448).

use vstd::prelude::*;

verus! {

/// BRNG, bit 13.
#[derive(Debug, Clone, Copy, PartialEq, Eq, Structural)]
pub enum BusVoltageRange {
    V16,
    V32,
}

impl BusVoltageRange {
    pub fn from_bit(bit: bool) -> (r: Self)
        ensures
            r == (if bit {
                BusVoltageRange::V32
            } else {
                BusVoltageRange::V16
            }),
    {
        if bit {
            Self::V32
        } else {
            Self::V16
        }
    }

    pub fn to_bit(self) -> (r: bool)
        ensures
            r == (self == BusVoltageRange::V32),
    {
        match self {
            Self::V32 => true,
            Self::V16 => false,
        }
    }
}

/// PG\[1:0\], bits 12:11 - shunt voltage full-scale range. The Shunt Voltage
/// LSB is always 10uV; the gain only changes how large a shunt voltage can be
/// represented before clipping.
#[derive(Debug, Clone, Copy, PartialEq, Eq, Structural)]
pub enum Gain {
    Div1,
    Div2,
    Div4,
    Div8,
}

impl Gain {
    /// The gain a 2-bit PG code selects.
    pub open spec fn decode(code: u16) -> Gain {
        if code == 0 {
            Gain::Div1
        } else if code == 1 {
            Gain::Div2
        } else if code == 2 {
            Gain::Div4
        } else {
            Gain::Div8
        }
    }

    /// The 2-bit PG code of a gain.
    pub open spec fn code(self) -> u16 {
        match self {
            Gain::Div1 => 0,
            Gain::Div2 => 1,
            Gain::Div4 => 2,
            Gain::Div8 => 3,
        }
    }

    /// Decodes the low two bits of `raw`.
    pub fn from_raw(raw: u16) -> (r: Self)
        ensures
            r == Gain::decode(raw & 0b11),
    {
        let code = raw & 0b11;
        if code == 0b00 {
            Self::Div1
        } else if code == 0b01 {
            Self::Div2
        } else if code == 0b10 {
            Self::Div4
        } else {
            Self::Div8
        }
    }

    pub fn to_raw(self) -> (r: u16)
        ensures
            r == self.code(),
    {
        match self {
            Self::Div1 => 0b00,
            Self::Div2 => 0b01,
            Self::Div4 => 0b10,
            Self::Div8 => 0b11,
        }
    }

    /// Shunt voltage full-scale range in millivolts before clipping.
    pub fn full_scale_mv(self) -> (r: u16)
        ensures
            r == 40 * (1u16 << self.code()),
            r == match self {
                Gain::Div1 => 40u16,
                Gain::Div2 => 80u16,
                Gain::Div4 => 160u16,
                Gain::Div8 => 320u16,
            },
    {
        proof {
            assert(1u16 << 0u16 == 1 && 1u16 << 1u16 == 2 && 1u16 << 2u16 == 4 && 1u16 << 3u16 == 8)
                by (bit_vector);
        }
        match self {
            Self::Div1 => 40,
            Self::Div2 => 80,
            Self::Div4 => 160,
            Self::Div8 => 320,
        }
    }
}

/// Shared BADC\[3:0\]/SADC\[3:0\] encoding. The top bit of the 4-bit field
/// switches between a single sample at the given resolution (`0xxx`) and
/// averaging of 12-bit samples (`1xxx`). Only the eleven patterns the
/// datasheet names are modeled; the rest (`0100`-`0111`, and `1000`'s
/// redundant "12-bit, 1 sample") read back as [`AdcSetting::Bits12`].
#[derive(Debug, Clone, Copy, PartialEq, Eq, Structural)]
pub enum AdcSetting {
    Bits9,
    Bits10,
    Bits11,
    Bits12,
    Average2,
    Average4,
    Average8,
    Average16,
    Average32,
    Average64,
    Average128,
}

impl AdcSetting {
    /// The setting a 4-bit ADC code selects.
    pub open spec fn decode(code: u16) -> AdcSetting {
        if code == 0b0000 {
            AdcSetting::Bits9
        } else if code == 0b0001 {
            AdcSetting::Bits10
        } else if code == 0b0010 {
            AdcSetting::Bits11
        } else if code == 0b1001 {
            AdcSetting::Average2
        } else if code == 0b1010 {
            AdcSetting::Average4
        } else if code == 0b1011 {
            AdcSetting::Average8
        } else if code == 0b1100 {
            AdcSetting::Average16
        } else if code == 0b1101 {
            AdcSetting::Average32
        } else if code == 0b1110 {
            AdcSetting::Average64
        } else if code == 0b1111 {
            AdcSetting::Average128
        } else {
            AdcSetting::Bits12
        }
    }

    /// The 4-bit code the driver writes for a setting.
    pub open spec fn code(self) -> u16 {
        match self {
            AdcSetting::Bits9 => 0b0000,
            AdcSetting::Bits10 => 0b0001,
            AdcSetting::Bits11 => 0b0010,
            AdcSetting::Bits12 => 0b0011,
            AdcSetting::Average2 => 0b1001,
            AdcSetting::Average4 => 0b1010,
            AdcSetting::Average8 => 0b1011,
            AdcSetting::Average16 => 0b1100,
            AdcSetting::Average32 => 0b1101,
            AdcSetting::Average64 => 0b1110,
            AdcSetting::Average128 => 0b1111,
        }
    }

    /// The eleven 4-bit codes the datasheet names (`0011` for 12-bit and
    /// `1001`-`1111` for averaging included, `0100`-`1000` not).
    pub open spec fn is_defined_code(code: u16) -> bool {
        code <= 0b0011 || (0b1001 <= code && code <= 0b1111)
    }

    /// Decodes the low four bits of `raw`.
    pub fn from_raw(raw: u16) -> (r: Self)
        ensures
            r == AdcSetting::decode(raw & 0b1111),
    {
        let code = raw & 0b1111;
        if code == 0b0000 {
            Self::Bits9
        } else if code == 0b0001 {
            Self::Bits10
        } else if code == 0b0010 {
            Self::Bits11
        } else if code == 0b1001 {
            Self::Average2
        } else if code == 0b1010 {
            Self::Average4
        } else if code == 0b1011 {
            Self::Average8
        } else if code == 0b1100 {
            Self::Average16
        } else if code == 0b1101 {
            Self::Average32
        } else if code == 0b1110 {
            Self::Average64
        } else if code == 0b1111 {
            Self::Average128
        } else {
            Self::Bits12
        }
    }

    pub fn to_raw(self) -> (r: u16)
        ensures
            r == self.code(),
    {
        match self {
            Self::Bits9 => 0b0000,
            Self::Bits10 => 0b0001,
            Self::Bits11 => 0b0010,
            Self::Bits12 => 0b0011,
            Self::Average2 => 0b1001,
            Self::Average4 => 0b1010,
            Self::Average8 => 0b1011,
            Self::Average16 => 0b1100,
            Self::Average32 => 0b1101,
            Self::Average64 => 0b1110,
            Self::Average128 => 0b1111,
        }
    }

    /// Conversion time of one measurement at this setting, in microseconds
    /// (datasheet Electrical Characteristics, rounded to whole microseconds).
    pub fn conversion_time_us(self) -> (r: u32)
        ensures
            r == match self {
                AdcSetting::Bits9 => 84u32,
                AdcSetting::Bits10 => 148u32,
                AdcSetting::Bits11 => 276u32,
                AdcSetting::Bits12 => 532u32,
                AdcSetting::Average2 => 1_060u32,
                AdcSetting::Average4 => 2_130u32,
                AdcSetting::Average8 => 4_260u32,
                AdcSetting::Average16 => 8_510u32,
                AdcSetting::Average32 => 17_020u32,
                AdcSetting::Average64 => 34_050u32,
                AdcSetting::Average128 => 68_100u32,
            },
    {
        match self {
            Self::Bits9 => 84,
            Self::Bits10 => 148,
            Self::Bits11 => 276,
            Self::Bits12 => 532,
            Self::Average2 => 1_060,
            Self::Average4 => 2_130,
            Self::Average8 => 4_260,
            Self::Average16 => 8_510,
            Self::Average32 => 17_020,
            Self::Average64 => 34_050,
            Self::Average128 => 68_100,
        }
    }
}

/// MODE\[2:0\], bits 2:0.
#[derive(Debug, Clone, Copy, PartialEq, Eq, Structural)]
pub enum Mode {
    PowerDown,
    ShuntTriggered,
    BusTriggered,
    ShuntBusTriggered,
    AdcOff,
    ShuntContinuous,
    BusContinuous,
    ShuntBusContinuous,
}

impl Mode {
    /// The mode a 3-bit MODE code selects.
    pub open spec fn decode(code: u16) -> Mode {
        if code == 0 {
            Mode::PowerDown
        } else if code == 1 {
            Mode::ShuntTriggered
        } else if code == 2 {
            Mode::BusTriggered
        } else if code == 3 {
            Mode::ShuntBusTriggered
        } else if code == 4 {
            Mode::AdcOff
        } else if code == 5 {
            Mode::ShuntContinuous
        } else if code == 6 {
            Mode::BusContinuous
        } else {
            Mode::ShuntBusContinuous
        }
    }

    /// The 3-bit MODE code of a mode.
    pub open spec fn code(self) -> u16 {
        match self {
            Mode::PowerDown => 0,
            Mode::ShuntTriggered => 1,
            Mode::BusTriggered => 2,
            Mode::ShuntBusTriggered => 3,
            Mode::AdcOff => 4,
            Mode::ShuntContinuous => 5,
            Mode::BusContinuous => 6,
            Mode::ShuntBusContinuous => 7,
        }
    }

    /// Decodes the low three bits of `raw`.
    pub fn from_raw(raw: u16) -> (r: Self)
        ensures
            r == Mode::decode(raw & 0b111),
    {
        let code = raw & 0b111;
        if code == 0b000 {
            Self::PowerDown
        } else if code == 0b001 {
            Self::ShuntTriggered
        } else if code == 0b010 {
            Self::BusTriggered
        } else if code == 0b011 {
            Self::ShuntBusTriggered
        } else if code == 0b100 {
            Self::AdcOff
        } else if code == 0b101 {
            Self::ShuntContinuous
        } else if code == 0b110 {
            Self::BusContinuous
        } else {
            Self::ShuntBusContinuous
        }
    }

    pub fn to_raw(self) -> (r: u16)
        ensures
            r == self.code(),
    {
        match self {
            Self::PowerDown => 0b000,
            Self::ShuntTriggered => 0b001,
            Self::BusTriggered => 0b010,
            Self::ShuntBusTriggered => 0b011,
            Self::AdcOff => 0b100,
            Self::ShuntContinuous => 0b101,
            Self::BusContinuous => 0b110,
            Self::ShuntBusContinuous => 0b111,
        }
    }

    /// In triggered modes, a new conversion only starts when Configuration
    /// is written with a triggered mode again (datasheet S8.3).
    pub fn is_triggered(self) -> (r: bool)
        ensures
            r == (self == Mode::ShuntTriggered || self == Mode::BusTriggered || self
                == Mode::ShuntBusTriggered),
            r == (1 <= self.code() <= 3),
    {
        match self {
            Self::ShuntTriggered | Self::BusTriggered | Self::ShuntBusTriggered => true,
            _ => false,
        }
    }
}

/// Configuration register (0x00), decoded. Excludes RST (bit 15, write-only
/// and self-clearing) and the reserved bit 14, which reads 0 and is ignored
/// on write.
#[derive(Debug, Clone, Copy, PartialEq, Eq, Structural)]
pub struct Configuration {
    pub bus_voltage_range: BusVoltageRange,
    pub gain: Gain,
    pub bus_adc: AdcSetting,
    pub shunt_adc: AdcSetting,
    pub mode: Mode,
}

/// The configuration a raw register value decodes to.
pub open spec fn decode_configuration(raw: u16) -> Configuration {
    Configuration {
        bus_voltage_range: if raw & 0x2000 != 0 {
            BusVoltageRange::V32
        } else {
            BusVoltageRange::V16
        },
        gain: Gain::decode((raw >> 11) & 0b11),
        bus_adc: AdcSetting::decode((raw >> 7) & 0b1111),
        shunt_adc: AdcSetting::decode((raw >> 3) & 0b1111),
        mode: Mode::decode(raw & 0b111),
    }
}

/// The raw register value of a configuration.
pub open spec fn encode_configuration(c: Configuration) -> u16 {
    ((if c.bus_voltage_range == BusVoltageRange::V32 {
        1u16
    } else {
        0u16
    }) << 13u16) | (c.gain.code() << 11u16) | (c.bus_adc.code() << 7u16) | (c.shunt_adc.code()
        << 3u16) | c.mode.code()
}

/// The power-on reset configuration: 32V range, /8 gain, 12-bit continuous
/// conversion on both ADCs (raw value 0x399F).
pub open spec fn power_on_configuration() -> Configuration {
    Configuration {
        bus_voltage_range: BusVoltageRange::V32,
        gain: Gain::Div8,
        bus_adc: AdcSetting::Bits12,
        shunt_adc: AdcSetting::Bits12,
        mode: Mode::ShuntBusContinuous,
    }
}

impl Default for Configuration {
    fn default() -> (r: Self)
        ensures
            r == power_on_configuration(),
    {
        Self {
            bus_voltage_range: BusVoltageRange::V32,
            gain: Gain::Div8,
            bus_adc: AdcSetting::Bits12,
            shunt_adc: AdcSetting::Bits12,
            mode: Mode::ShuntBusContinuous,
        }
    }
}

proof fn lemma_field_extraction(b: u16, g: u16, ba: u16, sa: u16, m: u16)
    requires
        b <= 1,
        g <= 3,
        ba <= 15,
        sa <= 15,
        m <= 7,
    ensures
        ({
            let raw = (b << 13u16) | (g << 11u16) | (ba << 7u16) | (sa << 3u16) | m;
            &&& (raw & 0x2000 != 0) == (b == 1)
            &&& (raw >> 11) & 0b11 == g
            &&& (raw >> 7) & 0b1111 == ba
            &&& (raw >> 3) & 0b1111 == sa
            &&& raw & 0b111 == m
            &&& raw < 0x4000
        }),
{
    assert({
        let raw = (b << 13u16) | (g << 11u16) | (ba << 7u16) | (sa << 3u16) | m;
        &&& (raw & 0x2000 != 0) == (b == 1)
        &&& (raw >> 11) & 0b11 == g
        &&& (raw >> 7) & 0b1111 == ba
        &&& (raw >> 3) & 0b1111 == sa
        &&& raw & 0b111 == m
        &&& raw < 0x4000
    }) by (bit_vector)
        requires
            b <= 1,
            g <= 3,
            ba <= 15,
            sa <= 15,
            m <= 7,
    ;
}

proof fn lemma_field_assembly(raw: u16)
    ensures
        ({
            let b: u16 = if raw & 0x2000 != 0 {
                1
            } else {
                0
            };
            (b << 13u16) | (((raw >> 11) & 0b11) << 11u16) | (((raw >> 7) & 0b1111) << 7u16) | (((
            raw >> 3) & 0b1111) << 3u16) | (raw & 0b111) == raw & 0x3FFF
        }),
        (raw >> 11) & 0b11 <= 3,
        (raw >> 7) & 0b1111 <= 15,
        (raw >> 3) & 0b1111 <= 15,
        raw & 0b111 <= 7,
{
    assert(((if raw & 0x2000 != 0 {
        1u16
    } else {
        0u16
    }) << 13u16) | (((raw >> 11) & 0b11) << 11u16) | (((raw >> 7) & 0b1111) << 7u16) | (((raw
        >> 3) & 0b1111) << 3u16) | (raw & 0b111) == raw & 0x3FFF) by (bit_vector);
    assert((raw >> 11) & 0b11 <= 3 && (raw >> 7) & 0b1111 <= 15 && (raw >> 3) & 0b1111 <= 15
        && raw & 0b111 <= 7) by (bit_vector);
}

impl Configuration {
    pub fn from_raw(raw: u16) -> (r: Self)
        ensures
            r == decode_configuration(raw),
    {
        assert(1u16 << 13u16 == 0x2000) by (bit_vector);
        Self {
            bus_voltage_range: BusVoltageRange::from_bit(raw & (1 << 13) != 0),
            gain: Gain::from_raw(raw >> 11),
            bus_adc: AdcSetting::from_raw(raw >> 7),
            shunt_adc: AdcSetting::from_raw(raw >> 3),
            mode: Mode::from_raw(raw),
        }
    }

    pub fn to_raw(self) -> (r: u16)
        ensures
            r == encode_configuration(self),
            r < 0x4000,
    {
        proof {
            lemma_field_extraction(
                if self.bus_voltage_range == BusVoltageRange::V32 {
                    1
                } else {
                    0
                },
                self.gain.code(),
                self.bus_adc.code(),
                self.shunt_adc.code(),
                self.mode.code(),
            );
        }
        let b: u16 = if self.bus_voltage_range.to_bit() {
            1
        } else {
            0
        };
        (b << 13) | (self.gain.to_raw() << 11) | (self.bus_adc.to_raw() << 7) | (
        self.shunt_adc.to_raw() << 3) | self.mode.to_raw()
    }
}

/// Every gain survives an encode/decode round trip, and every 2-bit code a
/// decode/encode one.
pub proof fn lemma_gain_round_trip(g: Gain, code: u16)
    requires
        code <= 3,
    ensures
        Gain::decode(g.code()) == g,
        Gain::decode(code).code() == code,
{
}

/// Every ADC setting survives an encode/decode round trip; a defined 4-bit
/// code survives decode/encode, and every other code decodes to 12-bit.
pub proof fn lemma_adc_setting_round_trip(s: AdcSetting, code: u16)
    requires
        code <= 15,
    ensures
        AdcSetting::decode(s.code()) == s,
        AdcSetting::is_defined_code(code) ==> AdcSetting::decode(code).code() == code,
        !AdcSetting::is_defined_code(code) ==> AdcSetting::decode(code) == AdcSetting::Bits12,
{
}

/// Every mode survives an encode/decode round trip, and every 3-bit code a
/// decode/encode one.
pub proof fn lemma_mode_round_trip(m: Mode, code: u16)
    requires
        code <= 7,
    ensures
        Mode::decode(m.code()) == m,
        Mode::decode(code).code() == code,
{
}

/// Encoding a configuration and decoding the register value gives the same
/// configuration back; the encoding never sets the reserved bit 14 or RST.
pub proof fn lemma_configuration_round_trip(c: Configuration)
    ensures
        decode_configuration(encode_configuration(c)) == c,
        encode_configuration(c) < 0x4000,
{
    lemma_field_extraction(
        if c.bus_voltage_range == BusVoltageRange::V32 {
            1
        } else {
            0
        },
        c.gain.code(),
        c.bus_adc.code(),
        c.shunt_adc.code(),
        c.mode.code(),
    );
    lemma_gain_round_trip(c.gain, 0);
    lemma_adc_setting_round_trip(c.bus_adc, 0);
    lemma_adc_setting_round_trip(c.shunt_adc, 0);
    lemma_mode_round_trip(c.mode, 0);
}

/// Decoding a register value whose two ADC fields hold defined codes and
/// encoding the result gives back the value with bits 15:14 cleared.
pub proof fn lemma_raw_configuration_round_trip(raw: u16)
    requires
        AdcSetting::is_defined_code((raw >> 7) & 0b1111),
        AdcSetting::is_defined_code((raw >> 3) & 0b1111),
    ensures
        encode_configuration(decode_configuration(raw)) == raw & 0x3FFF,
{
    lemma_field_assembly(raw);
    let c = decode_configuration(raw);
    lemma_gain_round_trip(c.gain, (raw >> 11) & 0b11);
    lemma_adc_setting_round_trip(c.bus_adc, (raw >> 7) & 0b1111);
    lemma_adc_setting_round_trip(c.shunt_adc, (raw >> 3) & 0b1111);
    lemma_mode_round_trip(c.mode, raw & 0b111);
}

/// The power-on configuration is the register's reset value 0x399F, both
/// ways.
pub proof fn lemma_power_on_configuration()
    ensures
        encode_configuration(power_on_configuration()) == 0x399F,
        decode_configuration(0x399Fu16) == power_on_configuration(),
{
    assert(((1u16 << 13u16) | (3u16 << 11u16) | (3u16 << 7u16) | (3u16 << 3u16) | 7u16) == 0x399F)
        by (bit_vector);
    lemma_configuration_round_trip(power_on_configuration());
}

/// The PGA divisor a gain setting names (`Div8` divides by 8).
pub open spec fn gain_divisor(g: Gain) -> nat {
    match g {
        Gain::Div1 => 1,
        Gain::Div2 => 2,
        Gain::Div4 => 4,
        Gain::Div8 => 8,
    }
}

/// The PG code of a gain is the base-2 logarithm of its divisor (datasheet
/// Table 5: /1 = 00, /2 = 01, /4 = 10, /8 = 11), and the shunt full-scale
/// range is 40mV times the divisor.
pub proof fn lemma_gain_codes(g: Gain)
    ensures
        g.code() <= 3,
        vstd::arithmetic::power2::pow2(g.code() as nat) == gain_divisor(g),
        40 * gain_divisor(g) == match g {
            Gain::Div1 => 40nat,
            Gain::Div2 => 80nat,
            Gain::Div4 => 160nat,
            Gain::Div8 => 320nat,
        },
{
    vstd::arithmetic::power2::lemma2_to64();
}

/// How many samples an ADC setting averages (1 for a single sample).
pub open spec fn adc_samples(s: AdcSetting) -> nat {
    match s {
        AdcSetting::Average2 => 2,
        AdcSetting::Average4 => 4,
        AdcSetting::Average8 => 8,
        AdcSetting::Average16 => 16,
        AdcSetting::Average32 => 32,
        AdcSetting::Average64 => 64,
        AdcSetting::Average128 => 128,
        _ => 1,
    }
}

/// The resolution in bits of each sample of an ADC setting (averaging uses
/// 12-bit samples).
pub open spec fn adc_resolution(s: AdcSetting) -> nat {
    match s {
        AdcSetting::Bits9 => 9,
        AdcSetting::Bits10 => 10,
        AdcSetting::Bits11 => 11,
        _ => 12,
    }
}

/// The BADC/SADC code of an ADC setting (datasheet Table 6): a single
/// sample is `0` followed by the resolution less 9 (`00` for 9 bits ..
/// `11` for 12 bits); averaging of 12-bit samples is `1` followed by the
/// base-2 logarithm of the sample count (`001` for 2 .. `111` for 128).
pub proof fn lemma_adc_setting_codes(s: AdcSetting)
    ensures
        s.code() <= 15,
        adc_samples(s) == 1 ==> s.code() == adc_resolution(s) - 9,
        adc_samples(s) > 1 ==> s.code() >= 8 && adc_resolution(s) == 12
            && vstd::arithmetic::power2::pow2((s.code() - 8) as nat) == adc_samples(s),
{
    vstd::arithmetic::power2::lemma2_to64();
}

/// Whether a mode converts the shunt voltage.
pub open spec fn mode_measures_shunt(m: Mode) -> bool {
    match m {
        Mode::ShuntTriggered | Mode::ShuntBusTriggered | Mode::ShuntContinuous
        | Mode::ShuntBusContinuous => true,
        _ => false,
    }
}

/// Whether a mode converts the bus voltage.
pub open spec fn mode_measures_bus(m: Mode) -> bool {
    match m {
        Mode::BusTriggered | Mode::ShuntBusTriggered | Mode::BusContinuous
        | Mode::ShuntBusContinuous => true,
        _ => false,
    }
}

/// Whether a mode is in the continuous half of the mode table: converting
/// continuously, or with the ADC off (the non-triggered counterpart of
/// power-down).
pub open spec fn mode_in_continuous_half(m: Mode) -> bool {
    match m {
        Mode::AdcOff | Mode::ShuntContinuous | Mode::BusContinuous | Mode::ShuntBusContinuous => true,
        _ => false,
    }
}

/// The MODE bits say what a mode does (datasheet Table 7): bit 0 selects
/// the shunt voltage, bit 1 the bus voltage, bit 2 continuous rather than
/// triggered conversion (with neither voltage: ADC off rather than
/// power-down). So ShuntTriggered is 001 and BusTriggered 010, and every
/// 3-bit code decodes to the mode whose bits it holds.
pub proof fn lemma_mode_codes(m: Mode, code: u16)
    requires
        code <= 7,
    ensures
        m.code() <= 7,
        (m.code() % 2 == 1) == mode_measures_shunt(m),
        ((m.code() / 2) % 2 == 1) == mode_measures_bus(m),
        (m.code() / 4 == 1) == mode_in_continuous_half(m),
        mode_measures_shunt(Mode::decode(code)) == (code % 2 == 1),
        mode_measures_bus(Mode::decode(code)) == ((code / 2) % 2 == 1),
        mode_in_continuous_half(Mode::decode(code)) == (code / 4 == 1),
{
}

/// The register's bit layout (datasheet S8.1): BRNG is bit 13, PG bits
/// 12:11, BADC bits 10:7, SADC bits 6:3 and MODE bits 2:0, and bits 15:14
/// stay clear.
pub proof fn lemma_configuration_layout(c: Configuration)
    ensures
        (encode_configuration(c) >> 13u16) & 1 == (if c.bus_voltage_range == BusVoltageRange::V32 {
            1u16
        } else {
            0u16
        }),
        (encode_configuration(c) >> 11u16) & 0b11 == c.gain.code(),
        (encode_configuration(c) >> 7u16) & 0b1111 == c.bus_adc.code(),
        (encode_configuration(c) >> 3u16) & 0b1111 == c.shunt_adc.code(),
        encode_configuration(c) & 0b111 == c.mode.code(),
        encode_configuration(c) < 0x4000,
{
    let b: u16 = if c.bus_voltage_range == BusVoltageRange::V32 {
        1
    } else {
        0
    };
    let g = c.gain.code();
    let ba = c.bus_adc.code();
    let sa = c.shunt_adc.code();
    let m = c.mode.code();
    lemma_gain_codes(c.gain);
    lemma_adc_setting_codes(c.bus_adc);
    lemma_adc_setting_codes(c.shunt_adc);
    lemma_mode_codes(c.mode, 0);
    assert({
        let raw = (b << 13u16) | (g << 11u16) | (ba << 7u16) | (sa << 3u16) | m;
        &&& (raw >> 13u16) & 1 == b
        &&& (raw >> 11u16) & 0b11 == g
        &&& (raw >> 7u16) & 0b1111 == ba
        &&& (raw >> 3u16) & 0b1111 == sa
        &&& raw & 0b111 == m
        &&& raw < 0x4000
    }) by (bit_vector)
        requires
            b <= 1,
            g <= 3,
            ba <= 15,
            sa <= 15,
            m <= 7,
    ;
}

} // verus!
