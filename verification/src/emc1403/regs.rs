//! Register addresses, Table 6.1 of DS20005272A. Only the primary address
//! is listed for mirrored registers (0x03/0x09, 0x04/0x0A, 0x05/0x0B,
//! 0x06/0x0C, 0x07/0x0D, 0x08/0x0E): either address reaches the same value.

use vstd::prelude::*;

verus! {

/// A register address.
#[derive(Debug, Clone, Copy, PartialEq, Eq, Structural)]
pub enum Register {
    InternalTempHigh,
    External1TempHigh,
    Status,
    Configuration,
    ConversionRate,
    InternalHighLimit,
    InternalLowLimit,
    External1HighLimitHigh,
    External1LowLimitHigh,
    OneShot,
    External1TempLow,
    Scratchpad1,
    Scratchpad2,
    External1HighLimitLow,
    External1LowLimitLow,
    External2HighLimitHigh,
    External2LowLimitHigh,
    External2HighLimitLow,
    External2LowLimitLow,
    External1ThermLimit,
    External2ThermLimit,
    ExternalDiodeFault,
    ChannelMask,
    InternalThermLimit,
    ThermHysteresis,
    ConsecutiveAlert,
    External2TempHigh,
    External2TempLow,
    External1BetaConfig,
    External2BetaConfig,
    External1Ideality,
    External2Ideality,
    InternalTempLow,
    External3TempHigh,
    External3TempLow,
    External3HighLimitHigh,
    External3LowLimitHigh,
    External3HighLimitLow,
    External3LowLimitLow,
    External3ThermLimit,
    External3Ideality,
    HighLimitStatus,
    LowLimitStatus,
    ThermLimitStatus,
    FilterControl,
    ProductId,
    ManufacturerId,
    Revision,
}

impl Register {
    /// The address of each register.
    pub open spec fn address(self) -> u8 {
        match self {
            Register::InternalTempHigh => 0x00,
            Register::External1TempHigh => 0x01,
            Register::Status => 0x02,
            Register::Configuration => 0x03,
            Register::ConversionRate => 0x04,
            Register::InternalHighLimit => 0x05,
            Register::InternalLowLimit => 0x06,
            Register::External1HighLimitHigh => 0x07,
            Register::External1LowLimitHigh => 0x08,
            Register::OneShot => 0x0F,
            Register::External1TempLow => 0x10,
            Register::Scratchpad1 => 0x11,
            Register::Scratchpad2 => 0x12,
            Register::External1HighLimitLow => 0x13,
            Register::External1LowLimitLow => 0x14,
            Register::External2HighLimitHigh => 0x15,
            Register::External2LowLimitHigh => 0x16,
            Register::External2HighLimitLow => 0x17,
            Register::External2LowLimitLow => 0x18,
            Register::External1ThermLimit => 0x19,
            Register::External2ThermLimit => 0x1A,
            Register::ExternalDiodeFault => 0x1B,
            Register::ChannelMask => 0x1F,
            Register::InternalThermLimit => 0x20,
            Register::ThermHysteresis => 0x21,
            Register::ConsecutiveAlert => 0x22,
            Register::External2TempHigh => 0x23,
            Register::External2TempLow => 0x24,
            Register::External1BetaConfig => 0x25,
            Register::External2BetaConfig => 0x26,
            Register::External1Ideality => 0x27,
            Register::External2Ideality => 0x28,
            Register::InternalTempLow => 0x29,
            Register::External3TempHigh => 0x2A,
            Register::External3TempLow => 0x2B,
            Register::External3HighLimitHigh => 0x2C,
            Register::External3LowLimitHigh => 0x2D,
            Register::External3HighLimitLow => 0x2E,
            Register::External3LowLimitLow => 0x2F,
            Register::External3ThermLimit => 0x30,
            Register::External3Ideality => 0x31,
            Register::HighLimitStatus => 0x35,
            Register::LowLimitStatus => 0x36,
            Register::ThermLimitStatus => 0x37,
            Register::FilterControl => 0x40,
            Register::ProductId => 0xFD,
            Register::ManufacturerId => 0xFE,
            Register::Revision => 0xFF,
        }
    }
}

impl From<Register> for u8 {
    fn from(reg: Register) -> (r: u8) {
        match reg {
            Register::InternalTempHigh => 0x00,
            Register::External1TempHigh => 0x01,
            Register::Status => 0x02,
            Register::Configuration => 0x03,
            Register::ConversionRate => 0x04,
            Register::InternalHighLimit => 0x05,
            Register::InternalLowLimit => 0x06,
            Register::External1HighLimitHigh => 0x07,
            Register::External1LowLimitHigh => 0x08,
            Register::OneShot => 0x0F,
            Register::External1TempLow => 0x10,
            Register::Scratchpad1 => 0x11,
            Register::Scratchpad2 => 0x12,
            Register::External1HighLimitLow => 0x13,
            Register::External1LowLimitLow => 0x14,
            Register::External2HighLimitHigh => 0x15,
            Register::External2LowLimitHigh => 0x16,
            Register::External2HighLimitLow => 0x17,
            Register::External2LowLimitLow => 0x18,
            Register::External1ThermLimit => 0x19,
            Register::External2ThermLimit => 0x1A,
            Register::ExternalDiodeFault => 0x1B,
            Register::ChannelMask => 0x1F,
            Register::InternalThermLimit => 0x20,
            Register::ThermHysteresis => 0x21,
            Register::ConsecutiveAlert => 0x22,
            Register::External2TempHigh => 0x23,
            Register::External2TempLow => 0x24,
            Register::External1BetaConfig => 0x25,
            Register::External2BetaConfig => 0x26,
            Register::External1Ideality => 0x27,
            Register::External2Ideality => 0x28,
            Register::InternalTempLow => 0x29,
            Register::External3TempHigh => 0x2A,
            Register::External3TempLow => 0x2B,
            Register::External3HighLimitHigh => 0x2C,
            Register::External3LowLimitHigh => 0x2D,
            Register::External3HighLimitLow => 0x2E,
            Register::External3LowLimitLow => 0x2F,
            Register::External3ThermLimit => 0x30,
            Register::External3Ideality => 0x31,
            Register::HighLimitStatus => 0x35,
            Register::LowLimitStatus => 0x36,
            Register::ThermLimitStatus => 0x37,
            Register::FilterControl => 0x40,
            Register::ProductId => 0xFD,
            Register::ManufacturerId => 0xFE,
            Register::Revision => 0xFF,
        }
    }
}

impl vstd::std_specs::convert::FromSpecImpl<Register> for u8 {
    open spec fn obeys_from_spec() -> bool {
        true
    }

    open spec fn from_spec(v: Register) -> u8 {
        v.address()
    }
}

/// Manufacturer ID value read back from [`Register::ManufacturerId`].
pub const MANUFACTURER_ID_VALUE: u8 = 0x5D;

/// Product ID value of an EMC1403, read back from [`Register::ProductId`].
pub const PRODUCT_ID_EMC1403: u8 = 0x21;

/// Product ID value of an EMC1404, read back from [`Register::ProductId`].
pub const PRODUCT_ID_EMC1404: u8 = 0x25;

/// Table 6.1 of the datasheet: each register with its address, in
/// ascending address order.
pub open spec fn datasheet_register_table() -> Seq<(u8, Register)> {
    seq![
        (0x00u8, Register::InternalTempHigh),
        (0x01u8, Register::External1TempHigh),
        (0x02u8, Register::Status),
        (0x03u8, Register::Configuration),
        (0x04u8, Register::ConversionRate),
        (0x05u8, Register::InternalHighLimit),
        (0x06u8, Register::InternalLowLimit),
        (0x07u8, Register::External1HighLimitHigh),
        (0x08u8, Register::External1LowLimitHigh),
        (0x0Fu8, Register::OneShot),
        (0x10u8, Register::External1TempLow),
        (0x11u8, Register::Scratchpad1),
        (0x12u8, Register::Scratchpad2),
        (0x13u8, Register::External1HighLimitLow),
        (0x14u8, Register::External1LowLimitLow),
        (0x15u8, Register::External2HighLimitHigh),
        (0x16u8, Register::External2LowLimitHigh),
        (0x17u8, Register::External2HighLimitLow),
        (0x18u8, Register::External2LowLimitLow),
        (0x19u8, Register::External1ThermLimit),
        (0x1Au8, Register::External2ThermLimit),
        (0x1Bu8, Register::ExternalDiodeFault),
        (0x1Fu8, Register::ChannelMask),
        (0x20u8, Register::InternalThermLimit),
        (0x21u8, Register::ThermHysteresis),
        (0x22u8, Register::ConsecutiveAlert),
        (0x23u8, Register::External2TempHigh),
        (0x24u8, Register::External2TempLow),
        (0x25u8, Register::External1BetaConfig),
        (0x26u8, Register::External2BetaConfig),
        (0x27u8, Register::External1Ideality),
        (0x28u8, Register::External2Ideality),
        (0x29u8, Register::InternalTempLow),
        (0x2Au8, Register::External3TempHigh),
        (0x2Bu8, Register::External3TempLow),
        (0x2Cu8, Register::External3HighLimitHigh),
        (0x2Du8, Register::External3LowLimitHigh),
        (0x2Eu8, Register::External3HighLimitLow),
        (0x2Fu8, Register::External3LowLimitLow),
        (0x30u8, Register::External3ThermLimit),
        (0x31u8, Register::External3Ideality),
        (0x35u8, Register::HighLimitStatus),
        (0x36u8, Register::LowLimitStatus),
        (0x37u8, Register::ThermLimitStatus),
        (0x40u8, Register::FilterControl),
        (0xFDu8, Register::ProductId),
        (0xFEu8, Register::ManufacturerId),
        (0xFFu8, Register::Revision),
    ]
}

/// Every register is at its Table 6.1 address (External Diode 1 High Byte
/// at 0x01, External Diode 2 High Byte at 0x23, ...): the table lists each
/// register once, at strictly ascending addresses, so distinct registers
/// have distinct addresses and each register's address is the one the
/// table gives it.
pub proof fn lemma_register_addresses(r: Register, q: Register)
    ensures
        datasheet_register_table().len() == 48,
        forall|i: int|
            0 <= i < 48 ==> (#[trigger] datasheet_register_table()[i]).1.address()
                == datasheet_register_table()[i].0,
        forall|i: int, j: int|
            0 <= i < j < 48 ==> #[trigger] datasheet_register_table()[i].0
                < #[trigger] datasheet_register_table()[j].0,
        exists|i: int| 0 <= i < 48 && #[trigger] datasheet_register_table()[i].1 == r,
        r.address() == q.address() ==> r == q,
{
    let t = datasheet_register_table();
    assert forall|i: int| 0 <= i < 48 implies (#[trigger] t[i]).1.address() == t[i].0 by {}
    assert forall|i: int, j: int| 0 <= i < j < 48 implies #[trigger] t[i].0 < #[trigger] t[j].0 by {
        assert forall|k: int| 0 <= k < 47 implies (#[trigger] t[k]).0 < t[k + 1].0 by {}
        lemma_ascending(t, i, j);
    }
    let i = match r {
        Register::InternalTempHigh => 0int,
        Register::External1TempHigh => 1int,
        Register::Status => 2int,
        Register::Configuration => 3int,
        Register::ConversionRate => 4int,
        Register::InternalHighLimit => 5int,
        Register::InternalLowLimit => 6int,
        Register::External1HighLimitHigh => 7int,
        Register::External1LowLimitHigh => 8int,
        Register::OneShot => 9int,
        Register::External1TempLow => 10int,
        Register::Scratchpad1 => 11int,
        Register::Scratchpad2 => 12int,
        Register::External1HighLimitLow => 13int,
        Register::External1LowLimitLow => 14int,
        Register::External2HighLimitHigh => 15int,
        Register::External2LowLimitHigh => 16int,
        Register::External2HighLimitLow => 17int,
        Register::External2LowLimitLow => 18int,
        Register::External1ThermLimit => 19int,
        Register::External2ThermLimit => 20int,
        Register::ExternalDiodeFault => 21int,
        Register::ChannelMask => 22int,
        Register::InternalThermLimit => 23int,
        Register::ThermHysteresis => 24int,
        Register::ConsecutiveAlert => 25int,
        Register::External2TempHigh => 26int,
        Register::External2TempLow => 27int,
        Register::External1BetaConfig => 28int,
        Register::External2BetaConfig => 29int,
        Register::External1Ideality => 30int,
        Register::External2Ideality => 31int,
        Register::InternalTempLow => 32int,
        Register::External3TempHigh => 33int,
        Register::External3TempLow => 34int,
        Register::External3HighLimitHigh => 35int,
        Register::External3LowLimitHigh => 36int,
        Register::External3HighLimitLow => 37int,
        Register::External3LowLimitLow => 38int,
        Register::External3ThermLimit => 39int,
        Register::External3Ideality => 40int,
        Register::HighLimitStatus => 41int,
        Register::LowLimitStatus => 42int,
        Register::ThermLimitStatus => 43int,
        Register::FilterControl => 44int,
        Register::ProductId => 45int,
        Register::ManufacturerId => 46int,
        Register::Revision => 47int,
    };
    assert(t[i].1 == r);
}

proof fn lemma_ascending(t: Seq<(u8, Register)>, i: int, j: int)
    requires
        0 <= i < j < t.len(),
        forall|k: int| 0 <= k < t.len() - 1 ==> (#[trigger] t[k]).0 < t[k + 1].0,
    ensures
        t[i].0 < t[j].0,
    decreases j - i,
{
    if j > i + 1 {
        lemma_ascending(t, i, j - 1);
        assert(t[j - 1].0 < t[j].0);
    } else {
        assert(t[i].0 < t[i + 1].0);
    }
}

} // verus!
