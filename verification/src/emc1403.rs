//! Microchip EMC1403/EMC1404 SMBus temperature sensors: register encodings
//! and the decoding of their readings. The bus transfers themselves are done
//! by the caller, which hands the raw register values to the functions here.

pub mod address;
mod channel;
mod error;
pub mod flags;
pub mod regs;

pub use channel::{BetaChannel, Channel, ExternalChannel};
pub use error::Error;
pub use flags::{ChannelMask, Configuration, DiodeFault, LimitStatus, Status};
pub use regs::Register;

use vstd::prelude::*;

verus! {

#[derive(Debug, Clone, Copy, PartialEq, Eq, Structural)]
pub enum Product {
    /// Internal diode + 2 external diodes.
    Emc1403,
    /// Internal diode + 3 external diodes.
    Emc1404,
}

#[derive(Debug, Clone, Copy, PartialEq, Eq, Structural)]
pub struct DeviceId {
    pub product: Product,
    pub revision: u8,
}

/// CONV\[3:0\] field of the Conversion Rate register (0x04/0x0A, mirrored);
/// variant order is the raw encoding, `PerSec1_16` = 0 .. `PerSec64` = 0xA.
#[derive(Debug, Clone, Copy, PartialEq, Eq, Structural)]
pub enum ConversionRate {
    PerSec1_16,
    PerSec1_8,
    PerSec1_4,
    PerSec1_2,
    PerSec1,
    PerSec2,
    PerSec4,
    PerSec8,
    PerSec16,
    PerSec32,
    PerSec64,
}

impl ConversionRate {
    /// The CONV code of each rate.
    pub open spec fn code(self) -> u8 {
        match self {
            ConversionRate::PerSec1_16 => 0,
            ConversionRate::PerSec1_8 => 1,
            ConversionRate::PerSec1_4 => 2,
            ConversionRate::PerSec1_2 => 3,
            ConversionRate::PerSec1 => 4,
            ConversionRate::PerSec2 => 5,
            ConversionRate::PerSec4 => 6,
            ConversionRate::PerSec8 => 7,
            ConversionRate::PerSec16 => 8,
            ConversionRate::PerSec32 => 9,
            ConversionRate::PerSec64 => 10,
        }
    }

    /// Decodes the low four bits of `raw`; the undefined codes 0xB..=0xF
    /// fall back to 1/sec (datasheet S7).
    pub fn from_raw(raw: u8) -> (r: Self)
        ensures
            (raw & 0x0F) <= 10 ==> r.code() == raw & 0x0F,
            (raw & 0x0F) > 10 ==> r == ConversionRate::PerSec1,
    {
        let code = raw & 0x0F;
        if code == 0 {
            Self::PerSec1_16
        } else if code == 1 {
            Self::PerSec1_8
        } else if code == 2 {
            Self::PerSec1_4
        } else if code == 3 {
            Self::PerSec1_2
        } else if code == 4 {
            Self::PerSec1
        } else if code == 5 {
            Self::PerSec2
        } else if code == 6 {
            Self::PerSec4
        } else if code == 7 {
            Self::PerSec8
        } else if code == 8 {
            Self::PerSec16
        } else if code == 9 {
            Self::PerSec32
        } else if code == 10 {
            Self::PerSec64
        } else {
            Self::PerSec1
        }
    }

    pub fn to_raw(self) -> (r: u8)
        ensures
            r == self.code(),
    {
        match self {
            Self::PerSec1_16 => 0,
            Self::PerSec1_8 => 1,
            Self::PerSec1_4 => 2,
            Self::PerSec1_2 => 3,
            Self::PerSec1 => 4,
            Self::PerSec2 => 5,
            Self::PerSec4 => 6,
            Self::PerSec8 => 7,
            Self::PerSec16 => 8,
            Self::PerSec32 => 9,
            Self::PerSec64 => 10,
        }
    }

    /// Time between conversions at this rate, in microseconds: the
    /// reciprocal of the rate, 16s / 2^code.
    pub fn period_us(self) -> (r: u32)
        ensures
            r as nat * vstd::arithmetic::power2::pow2(self.code() as nat) == 16_000_000,
    {
        proof {
            vstd::arithmetic::power2::lemma2_to64();
        }
        match self {
            Self::PerSec1_16 => 16_000_000,
            Self::PerSec1_8 => 8_000_000,
            Self::PerSec1_4 => 4_000_000,
            Self::PerSec1_2 => 2_000_000,
            Self::PerSec1 => 1_000_000,
            Self::PerSec2 => 500_000,
            Self::PerSec4 => 250_000,
            Self::PerSec8 => 125_000,
            Self::PerSec16 => 62_500,
            Self::PerSec32 => 31_250,
            Self::PerSec64 => 15_625,
        }
    }
}

/// Distinct rates have distinct codes, each fitting the 4-bit CONV field,
/// so every rate survives an encode/decode round trip.
pub proof fn lemma_conversion_rate_round_trip(rate: ConversionRate, other: ConversionRate)
    ensures
        rate.code() <= 10,
        rate.code() & 0x0F == rate.code(),
        other.code() == rate.code() ==> other == rate,
{
    let c = rate.code();
    assert(c <= 10 ==> c & 0x0F == c) by (bit_vector);
}

/// CALRT\[2:0\]/CTHRM\[2:0\] fields of the Consecutive ALERT register (0x22):
/// only four of the eight patterns are defined (datasheet S9).
#[derive(Debug, Clone, Copy, PartialEq, Eq, Structural)]
pub enum ConsecutiveCount {
    One,
    Two,
    Three,
    Four,
}

impl ConsecutiveCount {
    /// The 3-bit field of each count.
    pub open spec fn field(self) -> u8 {
        match self {
            ConsecutiveCount::One => 0b000,
            ConsecutiveCount::Two => 0b001,
            ConsecutiveCount::Three => 0b011,
            ConsecutiveCount::Four => 0b111,
        }
    }

    /// The count a 3-bit field reads as: `0b000` and every undefined pattern
    /// read as one.
    pub open spec fn decode(field: u8) -> ConsecutiveCount {
        if field == 0b001 {
            ConsecutiveCount::Two
        } else if field == 0b011 {
            ConsecutiveCount::Three
        } else if field == 0b111 {
            ConsecutiveCount::Four
        } else {
            ConsecutiveCount::One
        }
    }

    pub fn from_field(field: u8) -> (r: Self)
        ensures
            r == ConsecutiveCount::decode(field & 0b111),
    {
        let f = field & 0b111;
        if f == 0b001 {
            Self::Two
        } else if f == 0b011 {
            Self::Three
        } else if f == 0b111 {
            Self::Four
        } else {
            Self::One
        }
    }

    pub fn to_field(self) -> (r: u8)
        ensures
            r == self.field(),
    {
        match self {
            Self::One => 0b000,
            Self::Two => 0b001,
            Self::Three => 0b011,
            Self::Four => 0b111,
        }
    }
}

/// Consecutive ALERT register (0x22), decoded.
#[derive(Debug, Clone, Copy, PartialEq, Eq, Structural)]
pub struct ConsecutiveAlertConfig {
    /// Bit 7: SMCLK held low >30ms resets the SMBus protocol state.
    pub smbus_timeout_enabled: bool,
    /// CTHRM\[2:0\] (bits 6:4): out-of-limit measurements before THERM.
    pub therm_count: ConsecutiveCount,
    /// CALRT\[2:0\] (bits 3:1): out-of-limit measurements before ALERT.
    pub alert_count: ConsecutiveCount,
}

/// The raw Consecutive ALERT value of a configuration.
pub open spec fn encode_consecutive_alert(c: ConsecutiveAlertConfig) -> u8 {
    ((if c.smbus_timeout_enabled {
        1u8
    } else {
        0u8
    }) << 7u8) | (c.therm_count.field() << 4u8) | (c.alert_count.field() << 1u8)
}

/// The configuration a raw Consecutive ALERT value decodes to.
pub open spec fn decode_consecutive_alert(raw: u8) -> ConsecutiveAlertConfig {
    ConsecutiveAlertConfig {
        smbus_timeout_enabled: raw & 0x80 != 0,
        therm_count: ConsecutiveCount::decode((raw >> 4) & 0b111),
        alert_count: ConsecutiveCount::decode((raw >> 1) & 0b111),
    }
}

proof fn lemma_consecutive_fields(t: u8, th: u8, al: u8)
    requires
        t <= 1,
        th <= 7,
        al <= 7,
    ensures
        ({
            let raw = (t << 7u8) | (th << 4u8) | (al << 1u8);
            &&& (raw & 0x80 != 0) == (t == 1)
            &&& (raw >> 4) & 0b111 == th
            &&& (raw >> 1) & 0b111 == al
        }),
{
    assert({
        let raw = (t << 7u8) | (th << 4u8) | (al << 1u8);
        &&& (raw & 0x80 != 0) == (t == 1)
        &&& (raw >> 4) & 0b111 == th
        &&& (raw >> 1) & 0b111 == al
    }) by (bit_vector)
        requires
            t <= 1,
            th <= 7,
            al <= 7,
    ;
}

impl ConsecutiveAlertConfig {
    pub fn from_raw(raw: u8) -> (r: Self)
        ensures
            r == decode_consecutive_alert(raw),
    {
        assert(1u8 << 7u8 == 0x80) by (bit_vector);
        assert(((raw >> 4) & 0b111) & 0b111 == (raw >> 4) & 0b111 && ((raw >> 1) & 0b111) & 0b111
            == (raw >> 1) & 0b111) by (bit_vector);
        Self {
            smbus_timeout_enabled: raw & (1 << 7) != 0,
            therm_count: ConsecutiveCount::from_field((raw >> 4) & 0b111),
            alert_count: ConsecutiveCount::from_field((raw >> 1) & 0b111),
        }
    }

    pub fn to_raw(self) -> (r: u8)
        ensures
            r == encode_consecutive_alert(self),
    {
        proof {
            lemma_consecutive_fields(
                if self.smbus_timeout_enabled {
                    1
                } else {
                    0
                },
                self.therm_count.field(),
                self.alert_count.field(),
            );
        }
        let t: u8 = if self.smbus_timeout_enabled {
            1
        } else {
            0
        };
        (t << 7) | (self.therm_count.to_field() << 4) | (self.alert_count.to_field() << 1)
    }
}

/// Every Consecutive ALERT configuration survives an encode/decode round
/// trip.
pub proof fn lemma_consecutive_alert_round_trip(c: ConsecutiveAlertConfig)
    ensures
        decode_consecutive_alert(encode_consecutive_alert(c)) == c,
{
    lemma_consecutive_fields(
        if c.smbus_timeout_enabled {
            1
        } else {
            0
        },
        c.therm_count.field(),
        c.alert_count.field(),
    );
}

/// BETAx\[2:0\] field of a Beta Configuration register (Table 6.16); variant
/// order is the raw encoding, `Beta0_11` = 0 .. `Disabled` = 7.
#[derive(Debug, Clone, Copy, PartialEq, Eq, Structural)]
pub enum BetaSetting {
    Beta0_11,
    Beta0_18,
    Beta0_25,
    Beta0_33,
    Beta0_43,
    Beta1_00,
    Beta2_33,
    /// Beta compensation off entirely for this channel.
    Disabled,
}

impl BetaSetting {
    /// The 3-bit code of each setting.
    pub open spec fn code(self) -> u8 {
        match self {
            BetaSetting::Beta0_11 => 0,
            BetaSetting::Beta0_18 => 1,
            BetaSetting::Beta0_25 => 2,
            BetaSetting::Beta0_33 => 3,
            BetaSetting::Beta0_43 => 4,
            BetaSetting::Beta1_00 => 5,
            BetaSetting::Beta2_33 => 6,
            BetaSetting::Disabled => 7,
        }
    }

    /// The setting a 3-bit code selects; all eight codes are defined.
    pub open spec fn decode(code: u8) -> BetaSetting {
        if code == 0 {
            BetaSetting::Beta0_11
        } else if code == 1 {
            BetaSetting::Beta0_18
        } else if code == 2 {
            BetaSetting::Beta0_25
        } else if code == 3 {
            BetaSetting::Beta0_33
        } else if code == 4 {
            BetaSetting::Beta0_43
        } else if code == 5 {
            BetaSetting::Beta1_00
        } else if code == 6 {
            BetaSetting::Beta2_33
        } else {
            BetaSetting::Disabled
        }
    }

    fn from_code(code: u8) -> (r: Self)
        ensures
            r == BetaSetting::decode(code),
    {
        if code == 0 {
            Self::Beta0_11
        } else if code == 1 {
            Self::Beta0_18
        } else if code == 2 {
            Self::Beta0_25
        } else if code == 3 {
            Self::Beta0_33
        } else if code == 4 {
            Self::Beta0_43
        } else if code == 5 {
            Self::Beta1_00
        } else if code == 6 {
            Self::Beta2_33
        } else {
            Self::Disabled
        }
    }

    fn to_code(self) -> (r: u8)
        ensures
            r == self.code(),
    {
        match self {
            Self::Beta0_11 => 0,
            Self::Beta0_18 => 1,
            Self::Beta0_25 => 2,
            Self::Beta0_33 => 3,
            Self::Beta0_43 => 4,
            Self::Beta1_00 => 5,
            Self::Beta2_33 => 6,
            Self::Disabled => 7,
        }
    }
}

/// Beta Configuration register (0x25/0x26), decoded.
#[derive(Debug, Clone, Copy, PartialEq, Eq, Structural)]
pub struct BetaConfig {
    /// ENABLEx (bit 3): the device picks the setting itself at the start of
    /// every conversion, and writing another `setting` has no effect.
    pub autodetect: bool,
    /// BETAx\[2:0\].
    pub setting: BetaSetting,
}

impl BetaConfig {
    pub fn from_raw(raw: u8) -> (r: Self)
        ensures
            r.autodetect == (raw & 0x08 != 0),
            r.setting == BetaSetting::decode(raw & 0b111),
    {
        assert(1u8 << 3u8 == 0x08) by (bit_vector);
        Self { autodetect: raw & (1 << 3) != 0, setting: BetaSetting::from_code(raw & 0b111) }
    }

    pub fn to_raw(self) -> (r: u8)
        ensures
            r == ((if self.autodetect {
                1u8
            } else {
                0u8
            }) << 3u8) | self.setting.code(),
            r & 0x08 != 0 <==> self.autodetect,
            BetaSetting::decode(r & 0b111) == self.setting,
    {
        let a: u8 = if self.autodetect {
            1
        } else {
            0
        };
        let c = self.setting.to_code();
        assert(a <= 1 && c <= 7 ==> ((((a << 3u8) | c) & 0x08 != 0) == (a == 1) && ((a << 3u8) | c)
            & 0b111 == c)) by (bit_vector);
        (a << 3) | c
    }
}

/// FILTER\[1:0\] field of the Filter Control register (0x40): filtering of
/// the External Diode 1 channel only. `0b01` and `0b10` both mean level 1.
#[derive(Debug, Clone, Copy, PartialEq, Eq, Structural)]
pub enum DigitalFilter {
    Disabled,
    Level1,
    Level2,
}

impl DigitalFilter {
    /// The filter level a 2-bit FILTER field selects.
    pub open spec fn decode(code: u8) -> DigitalFilter {
        if code == 0b01 || code == 0b10 {
            DigitalFilter::Level1
        } else if code == 0b11 {
            DigitalFilter::Level2
        } else {
            DigitalFilter::Disabled
        }
    }

    /// The FILTER code the driver writes for a level.
    pub open spec fn code(self) -> u8 {
        match self {
            DigitalFilter::Disabled => 0b00,
            DigitalFilter::Level1 => 0b01,
            DigitalFilter::Level2 => 0b11,
        }
    }

    pub fn from_raw(raw: u8) -> (r: Self)
        ensures
            r == DigitalFilter::decode(raw & 0b11),
    {
        let c = raw & 0b11;
        if c == 0b01 || c == 0b10 {
            Self::Level1
        } else if c == 0b11 {
            Self::Level2
        } else {
            Self::Disabled
        }
    }

    pub fn to_raw(self) -> (r: u8)
        ensures
            r == self.code(),
            DigitalFilter::decode(r & 0b11) == self,
    {
        assert(0u8 & 0b11 == 0 && 1u8 & 0b11 == 1 && 3u8 & 0b11 == 3) by (bit_vector);
        match self {
            Self::Disabled => 0b00,
            Self::Level1 => 0b01,
            Self::Level2 => 0b11,
        }
    }
}

/// A temperature in eighths of a degree C from a channel's high byte
/// (integer part, offset by 64 in extended range) and low byte (fraction in
/// 0.125C steps in its top three bits), datasheet S4.
pub open spec fn temp_eighths(high: u8, low: u8, range_extended: bool) -> int {
    let whole: int = if range_extended {
        high as int - 64
    } else {
        high as int
    };
    whole * 8 + ((low >> 5u8) & 0b111) as int
}

/// The temperature decoding in plain arithmetic (datasheet S4, Table 5.2):
/// the high byte counts whole degrees (offset by 64 in extended range) and
/// the low byte's top three bits count eighths of a degree, so the reading
/// is 8 x (high - offset) + low / 32 eighths; the low byte's other bits and
/// nothing else enter it, and extended range reads 64 degrees lower.
pub proof fn lemma_temperature_decoding(high: u8, low: u8, range_extended: bool)
    ensures
        temp_eighths(high, low, range_extended) == 8 * (high as int - (if range_extended {
            64int
        } else {
            0int
        })) + low as int / 32,
        temp_eighths(high, low, true) == temp_eighths(high, low, false) - 512,
        0 <= temp_eighths(high, low, false) - 8 * (high as int) < 8,
{
    assert(((low >> 5u8) & 0b111) as int == low as int / 32) by (bit_vector);
}

/// Decodes a channel's temperature registers to eighths of a degree C; the
/// temperature is exactly the result divided by 8.
pub fn decode_temp_eighths(high: u8, low: u8, range_extended: bool) -> (r: i16)
    ensures
        r == temp_eighths(high, low, range_extended),
        -512 <= r <= 2047,
{
    let whole: i16 = if range_extended {
        high as i16 - 64
    } else {
        high as i16
    };
    let frac = (low >> 5) & 0b111;
    assert(frac <= 7) by (bit_vector)
        requires
            frac == (low >> 5u8) & 0b111,
    ;
    whole * 8 + frac as i16
}

/// Tenths of a degree C, truncated toward zero, of a temperature given in
/// eighths of a degree.
pub fn decic_from_eighths(eighths: i16) -> (r: i16)
    requires
        -3276 <= eighths <= 3276,
    ensures
        eighths >= 0 ==> r == (eighths as int * 10) / 8,
        eighths < 0 ==> r == -((-(eighths as int) * 10) / 8),
{
    if eighths >= 0 {
        eighths * 10 / 8
    } else {
        -((-eighths) * 10 / 8)
    }
}

/// The register value a whole-degree limit is written as, in the data format
/// the RANGE bit selects: offset by 64 in extended range, then truncated to
/// a byte.
pub fn encode_limit(whole_degrees_c: i16, range_extended: bool) -> (r: u8)
    requires
        range_extended ==> whole_degrees_c <= i16::MAX - 64,
    ensures
        r == (if range_extended {
            whole_degrees_c as int + 64
        } else {
            whole_degrees_c as int
        }) as u8,
{
    let raw = if range_extended {
        whole_degrees_c + 64
    } else {
        whole_degrees_c
    };
    #[verifier::truncate] (raw as u8)
}

/// The whole-degree limit a register value holds, in the data format the
/// RANGE bit selects.
pub fn decode_limit(raw: u8, range_extended: bool) -> (r: i16)
    ensures
        r == if range_extended {
            raw as int - 64
        } else {
            raw as int
        },
{
    let raw = raw as i16;
    if range_extended {
        raw - 64
    } else {
        raw
    }
}

/// A limit inside the range its data format can represent (0..=255 standard,
/// -64..=191 extended) reads back as written, and every register value is
/// written back as read.
pub proof fn lemma_limit_round_trip(whole: i16, raw: u8, range_extended: bool)
    ensures
        (if range_extended {
            -64 <= whole <= 191
        } else {
            0 <= whole <= 255
        }) ==> (if range_extended {
            (whole as int + 64) as u8 as int - 64
        } else {
            whole as u8 as int
        }) == whole,
        (if range_extended {
            (raw as int - 64 + 64) as u8
        } else {
            (raw as int) as u8
        }) == raw,
{
}

/// IDEALITY\[5:0\] of an Ideality Factor register value, also what a setting
/// is masked to before it is written.
pub fn ideality_field(raw: u8) -> (r: u8)
    ensures
        r == raw & 0x3F,
{
    raw & 0x3F
}

/// What identification reads back says is on the bus: a Microchip
/// EMC1403/EMC1404, or [`Error::UnexpectedDevice`].
pub fn device_id_from<E>(manufacturer: u8, product_raw: u8, revision: u8) -> (r: Result<
    DeviceId,
    Error<E>,
>)
    ensures
        r is Ok <==> manufacturer == regs::MANUFACTURER_ID_VALUE && (product_raw
            == regs::PRODUCT_ID_EMC1403 || product_raw == regs::PRODUCT_ID_EMC1404),
        r matches Ok(id) ==> id.revision == revision && (id.product == Product::Emc1403
            <==> product_raw == regs::PRODUCT_ID_EMC1403),
        r matches Err(e) ==> e == (Error::<E>::UnexpectedDevice {
            product: product_raw,
            manufacturer,
        }),
{
    let product = if product_raw == regs::PRODUCT_ID_EMC1403 {
        Product::Emc1403
    } else if product_raw == regs::PRODUCT_ID_EMC1404 {
        Product::Emc1404
    } else {
        return Err(Error::UnexpectedDevice { product: product_raw, manufacturer });
    };
    if manufacturer != regs::MANUFACTURER_ID_VALUE {
        return Err(Error::UnexpectedDevice { product: product_raw, manufacturer });
    }
    Ok(DeviceId { product, revision })
}

/// Probing retries identification every 2ms on bus errors, for up to this
/// many retries (~20ms, past the device's 15ms power-up window).
pub const PROBE_MAX_RETRIES: u32 = 10;

/// Delay between identification attempts while probing, in ms.
pub const PROBE_RETRY_INTERVAL_MS: u32 = 2;

/// Retry bookkeeping of a probe: how many retries have been spent.
pub struct ProbeRetry {
    pub attempt: u32,
}

impl ProbeRetry {
    pub fn new() -> (r: Self)
        ensures
            r.attempt == 0,
    {
        ProbeRetry { attempt: 0 }
    }

    /// Decides, after an identification attempt, whether to retry it: only
    /// after a bus error, and only while retries are left. A retry uses one.
    pub fn should_retry(&mut self, bus_error: bool) -> (r: bool)
        requires
            old(self).attempt <= PROBE_MAX_RETRIES,
        ensures
            r == (bus_error && old(self).attempt < PROBE_MAX_RETRIES),
            final(self).attempt == if r {
                old(self).attempt + 1
            } else {
                old(self).attempt as int
            },
            final(self).attempt <= PROBE_MAX_RETRIES,
    {
        if bus_error && self.attempt < PROBE_MAX_RETRIES {
            self.attempt = self.attempt + 1;
            true
        } else {
            false
        }
    }
}

/// An EMC1403/EMC1404 on a bus `I2C`.
pub struct Emc1403<I2C> {
    i2c: I2C,
    address: u8,
}

impl<I2C> Emc1403<I2C> {
    pub closed spec fn bus(&self) -> I2C {
        self.i2c
    }

    pub closed spec fn bus_address(&self) -> u8 {
        self.address
    }

    pub fn new(i2c: I2C, address: u8) -> (r: Self)
        ensures
            r.bus() == i2c,
            r.bus_address() == address,
    {
        Self { i2c, address }
    }

    /// Gives back the underlying bus, e.g. to reuse it for another device
    /// sharing the same SMBus.
    pub fn release(self) -> (r: I2C)
        ensures
            r == self.bus(),
    {
        self.i2c
    }

    /// The bus, for the caller to run a transfer on.
    pub fn bus_mut(&mut self) -> (r: &mut I2C)
        ensures
            *r == old(self).bus(),
            final(self).bus() == *final(r),
            final(self).bus_address() == old(self).bus_address(),
    {
        &mut self.i2c
    }

    /// The 7-bit bus address of the device.
    pub fn address(&self) -> (r: u8)
        ensures
            r == self.bus_address(),
    {
        self.address
    }
}

/// How many conversions a rate makes every 16 seconds.
pub open spec fn conversions_per_16s(rate: ConversionRate) -> nat {
    match rate {
        ConversionRate::PerSec1_16 => 1,
        ConversionRate::PerSec1_8 => 2,
        ConversionRate::PerSec1_4 => 4,
        ConversionRate::PerSec1_2 => 8,
        ConversionRate::PerSec1 => 16,
        ConversionRate::PerSec2 => 32,
        ConversionRate::PerSec4 => 64,
        ConversionRate::PerSec8 => 128,
        ConversionRate::PerSec16 => 256,
        ConversionRate::PerSec32 => 512,
        ConversionRate::PerSec64 => 1024,
    }
}

/// The CONV code of a rate is the base-2 logarithm of its conversions per
/// 16 seconds (datasheet Table 6.5: 1/16 per second is 0, 4 per second is 6,
/// 64 per second is 10), so faster rates have larger codes.
pub proof fn lemma_conversion_rate_codes(rate: ConversionRate, other: ConversionRate)
    ensures
        vstd::arithmetic::power2::pow2(rate.code() as nat) == conversions_per_16s(rate),
        (rate.code() < other.code()) == (conversions_per_16s(rate) < conversions_per_16s(other)),
{
    vstd::arithmetic::power2::lemma2_to64();
}

/// How many consecutive measurements a count names.
pub open spec fn consecutive_measurements(c: ConsecutiveCount) -> nat {
    match c {
        ConsecutiveCount::One => 1,
        ConsecutiveCount::Two => 2,
        ConsecutiveCount::Three => 3,
        ConsecutiveCount::Four => 4,
    }
}

/// A count of n consecutive measurements is the field with its n - 1 low
/// bits set (datasheet S6.12: 000, 001, 011, 111), and each of those fields
/// reads back as its count.
pub proof fn lemma_consecutive_count_fields(c: ConsecutiveCount)
    ensures
        c.field() as nat + 1 == vstd::arithmetic::power2::pow2(
            (consecutive_measurements(c) - 1) as nat,
        ),
        ConsecutiveCount::decode(c.field()) == c,
{
    vstd::arithmetic::power2::lemma2_to64();
}

/// The beta factor a setting names, in hundredths (none when disabled).
pub open spec fn beta_hundredths(b: BetaSetting) -> Option<nat> {
    match b {
        BetaSetting::Beta0_11 => Some(11),
        BetaSetting::Beta0_18 => Some(18),
        BetaSetting::Beta0_25 => Some(25),
        BetaSetting::Beta0_33 => Some(33),
        BetaSetting::Beta0_43 => Some(43),
        BetaSetting::Beta1_00 => Some(100),
        BetaSetting::Beta2_33 => Some(233),
        BetaSetting::Disabled => None,
    }
}

/// The BETAx codes follow the beta factor (datasheet Table 6.16): a larger
/// beta has a larger code, the seven factors take codes 0 to 6 and 111
/// disables compensation; every code decodes back to its setting.
pub proof fn lemma_beta_codes(a: BetaSetting, b: BetaSetting)
    ensures
        a.code() <= 7,
        (a.code() == 7) == (beta_hundredths(a) is None),
        beta_hundredths(a) is Some && beta_hundredths(b) is Some ==> ((a.code() < b.code())
            == (beta_hundredths(a)->0 < beta_hundredths(b)->0)),
        BetaSetting::decode(a.code()) == a,
{
}

/// The FILTER codes (datasheet Table 6.24): 00 disables filtering, 11 is
/// level 2, and level 1 is written 01 and read from 01 or 10.
pub proof fn lemma_filter_codes(f: DigitalFilter, code: u8)
    requires
        code <= 3,
    ensures
        (f.code() == 0) == (f == DigitalFilter::Disabled),
        (f.code() == 3) == (f == DigitalFilter::Level2),
        DigitalFilter::decode(f.code()) == f,
        (DigitalFilter::decode(code) == DigitalFilter::Level1) == (code == 1 || code == 2),
{
}

} // verus!
