//! TI INA219 current/power monitor: register encodings and the decoding of
//! its readings. The bus transfers themselves are done by the caller, which
//! hands the raw register values to the functions here.

pub mod config;
mod error;
pub mod regs;

pub use config::{AdcSetting, BusVoltageRange, Configuration, Gain, Mode};
pub use error::Error;
pub use regs::Register;

use vstd::prelude::*;

verus! {

/// Fixed 7-bit SMBus addresses reachable via the A0/A1 strap pins (datasheet
/// S6.1); variant names are `A1A0`, each half one of the four strap levels
/// (Gnd, Vs, Sda or Scl).
#[derive(Debug, Clone, Copy, PartialEq, Eq, Structural)]
pub enum Address {
    GndGnd,
    GndVs,
    GndSda,
    GndScl,
    VsGnd,
    VsVs,
    VsSda,
    VsScl,
    SdaGnd,
    SdaVs,
    SdaSda,
    SdaScl,
    SclGnd,
    SclVs,
    SclSda,
    SclScl,
}

impl Address {
    /// The 7-bit bus address of each strap combination: 0x40 plus A1's level
    /// index times four plus A0's.
    pub open spec fn bits(self) -> u8 {
        match self {
            Address::GndGnd => 0x40,
            Address::GndVs => 0x41,
            Address::GndSda => 0x42,
            Address::GndScl => 0x43,
            Address::VsGnd => 0x44,
            Address::VsVs => 0x45,
            Address::VsSda => 0x46,
            Address::VsScl => 0x47,
            Address::SdaGnd => 0x48,
            Address::SdaVs => 0x49,
            Address::SdaSda => 0x4A,
            Address::SdaScl => 0x4B,
            Address::SclGnd => 0x4C,
            Address::SclVs => 0x4D,
            Address::SclSda => 0x4E,
            Address::SclScl => 0x4F,
        }
    }
}

impl From<Address> for u8 {
    fn from(addr: Address) -> (r: u8) {
        match addr {
            Address::GndGnd => 0x40,
            Address::GndVs => 0x41,
            Address::GndSda => 0x42,
            Address::GndScl => 0x43,
            Address::VsGnd => 0x44,
            Address::VsVs => 0x45,
            Address::VsSda => 0x46,
            Address::VsScl => 0x47,
            Address::SdaGnd => 0x48,
            Address::SdaVs => 0x49,
            Address::SdaSda => 0x4A,
            Address::SdaScl => 0x4B,
            Address::SclGnd => 0x4C,
            Address::SclVs => 0x4D,
            Address::SclSda => 0x4E,
            Address::SclScl => 0x4F,
        }
    }
}

impl vstd::std_specs::convert::FromSpecImpl<Address> for u8 {
    open spec fn obeys_from_spec() -> bool {
        true
    }

    open spec fn from_spec(v: Address) -> u8 {
        v.bits()
    }
}

/// Bus Voltage register (0x02), decoded.
#[derive(Debug, Clone, Copy, PartialEq, Eq, Structural)]
pub struct BusVoltage {
    /// LSB = 4mV, so always a multiple of 4.
    pub millivolts: u16,
    /// Set when a conversion has completed. Cleared by reading Power or
    /// writing Configuration, not by reading Bus Voltage.
    pub conversion_ready: bool,
    /// Set when the Power/Current calculation overflowed; a reading taken
    /// while it is set is invalid.
    pub overflow: bool,
}

impl BusVoltage {
    /// What [`BusVoltage::from_raw`] decodes a raw value to.
    pub open spec fn decoded(raw: u16) -> BusVoltage {
        BusVoltage {
            millivolts: ((raw >> 3) * 4) as u16,
            conversion_ready: raw & 0b10 != 0,
            overflow: raw & 0b1 != 0,
        }
    }

    /// Decodes a raw Bus Voltage register value: bits 15:3 in 4mV steps,
    /// CNVR at bit 1, OVF at bit 0 (datasheet S8.4).
    pub fn from_raw(raw: u16) -> (r: Self)
        ensures
            r == BusVoltage::decoded(raw),
            r.millivolts == (raw >> 3) * 4,
            r.millivolts <= 32764,
            r.conversion_ready == (raw & 0b10 != 0),
            r.overflow == (raw & 0b1 != 0),
    {
        assert((raw >> 3) <= 8191) by (bit_vector);
        assert(1u16 << 1u16 == 0b10) by (bit_vector);
        BusVoltage {
            millivolts: (raw >> 3) * 4,
            conversion_ready: raw & (1 << 1) != 0,
            overflow: raw & 1 != 0,
        }
    }
}

/// RST bit of the Configuration register: writing it resets every register,
/// Calibration included, to its power-on default.
pub const RESET_BITS: u16 = 0x8000;

/// An INA219 on a bus `I2C`, with the board's calibration constants.
///
/// `current_lsb_ma` and `calibration_raw` are per-board constants computed at
/// design time from the shunt resistor and expected current range:
/// `calibration_raw = trunc(0.04096 / (Current_LSB_A * R_SHUNT_ohm))` with bit
/// 0 cleared, and `current_lsb_ma` that same Current_LSB in mA (datasheet
/// S8.6).
pub struct Ina219<I2C> {
    i2c: I2C,
    address: u8,
    current_lsb_ma: u32,
    calibration_raw: u16,
}

impl<I2C> Ina219<I2C> {
    pub closed spec fn bus(&self) -> I2C {
        self.i2c
    }

    pub closed spec fn bus_address(&self) -> u8 {
        self.address
    }

    pub closed spec fn lsb_ma(&self) -> u32 {
        self.current_lsb_ma
    }

    pub closed spec fn calibration(&self) -> u16 {
        self.calibration_raw
    }

    pub fn new(i2c: I2C, address: u8, current_lsb_ma: u32, calibration_raw: u16) -> (r: Self)
        ensures
            r.bus() == i2c,
            r.bus_address() == address,
            r.lsb_ma() == current_lsb_ma,
            r.calibration() == calibration_raw,
    {
        Self { i2c, address, current_lsb_ma, calibration_raw }
    }

    /// Gives back the underlying bus, e.g. to reuse it for another device
    /// sharing the same SMBus.
    pub fn release(self) -> (r: I2C)
        ensures
            r == self.bus(),
    {
        self.i2c
    }

    /// The bus, for the caller to run a transfer on.
    pub fn bus_mut(&mut self) -> (r: &mut I2C)
        ensures
            *r == old(self).bus(),
            final(self).bus() == *final(r),
            final(self).bus_address() == old(self).bus_address(),
            final(self).lsb_ma() == old(self).lsb_ma(),
            final(self).calibration() == old(self).calibration(),
    {
        &mut self.i2c
    }

    /// The 7-bit bus address of the device.
    pub fn address(&self) -> (r: u8)
        ensures
            r == self.bus_address(),
    {
        self.address
    }

    /// Current_LSB in mA, as given to [`Ina219::new`].
    pub fn current_lsb_ma(&self) -> (r: u32)
        ensures
            r == self.lsb_ma(),
    {
        self.current_lsb_ma
    }

    /// The Calibration register value given to [`Ina219::new`], which
    /// calibrating writes.
    pub fn calibration_setting(&self) -> (r: u16)
        ensures
            r == self.calibration(),
    {
        self.calibration_raw
    }

    /// Bytes of a register write: the register pointer, then the value
    /// big-endian.
    /// What [`Ina219::write_frame`] returns.
    pub open spec fn write_frame_bytes(reg: u8, value: u16) -> Seq<u8> {
        seq![reg, (value >> 8) as u8, (value & 0xff) as u8]
    }

    pub fn write_frame(reg: u8, value: u16) -> (r: [u8; 3])
        ensures
            r@ == Self::write_frame_bytes(reg, value),
            r@ == seq![reg, (value >> 8) as u8, (value & 0xff) as u8],
            Self::register_value_spec(r@[1], r@[2]) == value,
    {
        let r = [reg, (value >> 8) as u8, (value & 0xff) as u8];
        proof {
            let hi = (value >> 8) as u8;
            let lo = (value & 0xff) as u8;
            assert((value >> 8) < 256) by (bit_vector);
            assert(((hi as u16) << 8u16) | (lo as u16) == value) by (bit_vector)
                requires
                    hi == (value >> 8) as u8,
                    lo == (value & 0xff) as u8,
            ;
        }
        assert(r@ =~= seq![reg, (value >> 8) as u8, (value & 0xff) as u8]);
        r
    }

    /// The register value two bytes read back big-endian encode.
    pub open spec fn register_value_spec(hi: u8, lo: u8) -> u16 {
        ((hi as u16) << 8u16) | (lo as u16)
    }

    /// Decodes the two bytes of a register read (big-endian).
    pub fn register_value(bytes: [u8; 2]) -> (r: u16)
        ensures
            r == Self::register_value_spec(bytes@[0], bytes@[1]),
    {
        ((bytes[0] as u16) << 8) | (bytes[1] as u16)
    }

    /// Whether Current and Power can be decoded: Current_LSB is nonzero.
    /// A driver made with a Current_LSB of 0 starts uncalibrated and must be
    /// calibrated before Current or Power is read.
    pub fn is_calibrated(&self) -> (r: bool)
        ensures
            r == (self.lsb_ma() != 0),
    {
        self.current_lsb_ma != 0
    }

    /// Records that the Calibration register has been programmed for a
    /// Current_LSB of `current_lsb_ma` mA.
    pub fn record_calibration(&mut self, current_lsb_ma: u32)
        ensures
            final(self).lsb_ma() == current_lsb_ma,
            final(self).bus() == old(self).bus(),
            final(self).bus_address() == old(self).bus_address(),
            final(self).calibration() == old(self).calibration(),
    {
        self.current_lsb_ma = current_lsb_ma;
    }

    /// Records a reset of the chip: Calibration is back to its power-on
    /// 0x0000, so Current and Power cannot be decoded until the driver is
    /// calibrated again.
    pub fn record_reset(&mut self)
        ensures
            final(self).lsb_ma() == 0,
            final(self).bus() == old(self).bus(),
            final(self).bus_address() == old(self).bus_address(),
            final(self).calibration() == old(self).calibration(),
    {
        self.current_lsb_ma = 0;
    }

    /// Current register (0x04) in mA, or [`Error::NotCalibrated`] when the
    /// driver is not calibrated (see [`Ina219::current_ma_from_raw`]).
    pub fn current_ma_checked<E>(&self, raw: u16) -> (r: Result<i32, Error<E>>)
        ensures
            self.lsb_ma() == 0 ==> r == Err::<i32, Error<E>>(Error::NotCalibrated),
            self.lsb_ma() != 0 ==> r == Ok::<i32, Error<E>>(
                (((raw as i16) as int) * (self.lsb_ma() as int)) as i32,
            ),
    {
        if self.current_lsb_ma == 0 {
            Err(Error::NotCalibrated)
        } else {
            Ok(self.current_ma_from_raw(raw))
        }
    }

    /// Power register (0x03) in mW, or [`Error::NotCalibrated`] when the
    /// driver is not calibrated (see [`Ina219::power_mw_from_raw`]).
    pub fn power_mw_checked<E>(&self, raw: u16) -> (r: Result<u32, Error<E>>)
        ensures
            self.lsb_ma() == 0 ==> r == Err::<u32, Error<E>>(Error::NotCalibrated),
            self.lsb_ma() != 0 ==> r == Ok::<u32, Error<E>>(
                ((raw as int) * 20 * (self.lsb_ma() as int)) as u32,
            ),
    {
        if self.current_lsb_ma == 0 {
            Err(Error::NotCalibrated)
        } else {
            Ok(self.power_mw_from_raw(raw))
        }
    }

    /// Shunt Voltage register (0x01) in microvolts: signed, LSB = 10uV
    /// regardless of gain.
    pub fn shunt_voltage_uv_from_raw(raw: u16) -> (r: i32)
        ensures
            r == (raw as i16) as int * 10,
    {
        (#[verifier::truncate] (raw as i16)) as i32 * 10
    }

    /// Current register (0x04) in mA: the signed register value times
    /// Current_LSB, computed in 64 bits and truncated to 32.
    pub fn current_ma_from_raw(&self, raw: u16) -> (r: i32)
        ensures
            r == (((raw as i16) as int) * (self.lsb_ma() as int)) as i32,
    {
        let signed = #[verifier::truncate] (raw as i16);
        let lsb = self.current_lsb_ma;
        assert(-32768 <= signed <= 32767);
        assert(-0x8000_0000_0000 <= (signed as int) * (lsb as int) <= 0x7fff_ffff_ffff) by (nonlinear_arith)
            requires
                -32768 <= signed <= 32767,
                lsb <= 0xffff_ffff,
        ;
        let ma = signed as i64 * lsb as i64;
        #[verifier::truncate] (ma as i32)
    }

    /// Power register (0x03) in mW: the register value times
    /// Power_LSB = 20 x Current_LSB (datasheet S8.6), computed in 64 bits and
    /// truncated to 32.
    pub fn power_mw_from_raw(&self, raw: u16) -> (r: u32)
        ensures
            r == ((raw as int) * 20 * (self.lsb_ma() as int)) as u32,
    {
        let power_lsb_mw = 20 * self.current_lsb_ma as u64;
        assert(raw as int * power_lsb_mw as int == (raw as int) * 20 * (self.current_lsb_ma as int)
            && raw as int * power_lsb_mw as int <= 0xffff * 20 * 0xffff_ffff) by (nonlinear_arith)
            requires
                power_lsb_mw == 20 * self.current_lsb_ma as u64,
                raw <= 0xffff,
                self.current_lsb_ma <= 0xffff_ffff,
        ;
        let mw = raw as u64 * power_lsb_mw;
        #[verifier::truncate] (mw as u32)
    }
}

/// The INA219's register encodings in plain arithmetic (datasheet S8.4-8.6):
/// registers travel most significant byte first; the bus voltage is the
/// value divided by 8 (bits 15:3) in 4mV steps, with CNVR the value's bit 1
/// and OVF its bit 0; the shunt voltage is the signed value in 10uV steps.
pub proof fn lemma_register_encodings(raw: u16, reg: u8, value: u16, hi: u8, lo: u8)
    ensures
        Ina219::<()>::register_value_spec(hi, lo) as int == 256 * hi as int + lo as int,
        Ina219::<()>::write_frame_bytes(reg, value).len() == 3,
        Ina219::<()>::write_frame_bytes(reg, value)[0] == reg,
        256 * Ina219::<()>::write_frame_bytes(reg, value)[1] as int
            + Ina219::<()>::write_frame_bytes(reg, value)[2] as int == value as int,
        BusVoltage::decoded(raw).millivolts as int == (raw as int / 8) * 4,
        BusVoltage::decoded(raw).conversion_ready == ((raw as int / 2) % 2 == 1),
        BusVoltage::decoded(raw).overflow == (raw as int % 2 == 1),
        (raw as i16) as int == if raw < 0x8000 {
            raw as int
        } else {
            raw as int - 0x10000
        },
{
    assert((((hi as u16) << 8u16) | (lo as u16)) as int == 256 * hi as int + lo as int)
        by (bit_vector);
    assert(256 * ((value >> 8) as u8) as int + ((value & 0xff) as u8) as int == value as int)
        by (bit_vector);
    assert((raw >> 3) as int == raw as int / 8 && (raw >> 3) <= 8191) by (bit_vector);
    assert((raw & 0b10 != 0) == ((raw as int / 2) % 2 == 1)) by (bit_vector);
    assert((raw & 0b1 != 0) == (raw as int % 2 == 1)) by (bit_vector);
    assert((raw as i16) as int == if raw < 0x8000 {
        raw as int
    } else {
        raw as int - 0x10000
    }) by (bit_vector);
}

} // verus!
