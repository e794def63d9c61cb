//! Temperature channels and the registers belonging to each.

use vstd::prelude::*;

use super::regs::Register;

verus! {

/// One of the up-to-four temperature channels the family exposes.
/// `External3` only exists on the EMC1404; nothing stops addressing it on an
/// EMC1403, where its registers are simply unconnected.
#[derive(Debug, Clone, Copy, PartialEq, Eq, Structural)]
pub enum Channel {
    Internal,
    External1,
    External2,
    External3,
}

impl Channel {
    /// Bit position of this channel in the High/Low/THERM Limit Status
    /// registers (0x35/0x36/0x37) and the Channel Mask register (0x1F).
    pub open spec fn bit(self) -> u8 {
        match self {
            Channel::Internal => 0,
            Channel::External1 => 1,
            Channel::External2 => 2,
            Channel::External3 => 3,
        }
    }

    /// What [`Channel::temp_regs`] returns.
    pub open spec fn temp_registers(self) -> (Register, Register) {
        match self {
            Channel::Internal => (Register::InternalTempHigh, Register::InternalTempLow),
            Channel::External1 => (Register::External1TempHigh, Register::External1TempLow),
            Channel::External2 => (Register::External2TempHigh, Register::External2TempLow),
            Channel::External3 => (Register::External3TempHigh, Register::External3TempLow),
        }
    }

    /// (high byte, low byte) temperature registers. The high byte must be
    /// read first: reading it latches the low byte (datasheet S4.1).
    pub fn temp_regs(self) -> (r: (Register, Register))
        ensures
            r == self.temp_registers(),
    {
        match self {
            Channel::Internal => (Register::InternalTempHigh, Register::InternalTempLow),
            Channel::External1 => (Register::External1TempHigh, Register::External1TempLow),
            Channel::External2 => (Register::External2TempHigh, Register::External2TempLow),
            Channel::External3 => (Register::External3TempHigh, Register::External3TempLow),
        }
    }

    /// What [`Channel::high_limit_reg`] returns.
    pub open spec fn high_limit_register(self) -> Register {
        match self {
            Channel::Internal => Register::InternalHighLimit,
            Channel::External1 => Register::External1HighLimitHigh,
            Channel::External2 => Register::External2HighLimitHigh,
            Channel::External3 => Register::External3HighLimitHigh,
        }
    }

    /// Whole-degree High Limit register. The fractional low-byte limit
    /// registers are not modeled.
    pub fn high_limit_reg(self) -> (r: Register)
        ensures
            r == self.high_limit_register(),
    {
        match self {
            Channel::Internal => Register::InternalHighLimit,
            Channel::External1 => Register::External1HighLimitHigh,
            Channel::External2 => Register::External2HighLimitHigh,
            Channel::External3 => Register::External3HighLimitHigh,
        }
    }

    /// What [`Channel::low_limit_reg`] returns.
    pub open spec fn low_limit_register(self) -> Register {
        match self {
            Channel::Internal => Register::InternalLowLimit,
            Channel::External1 => Register::External1LowLimitHigh,
            Channel::External2 => Register::External2LowLimitHigh,
            Channel::External3 => Register::External3LowLimitHigh,
        }
    }

    /// Whole-degree Low Limit register.
    pub fn low_limit_reg(self) -> (r: Register)
        ensures
            r == self.low_limit_register(),
    {
        match self {
            Channel::Internal => Register::InternalLowLimit,
            Channel::External1 => Register::External1LowLimitHigh,
            Channel::External2 => Register::External2LowLimitHigh,
            Channel::External3 => Register::External3LowLimitHigh,
        }
    }

    /// What [`Channel::therm_limit_reg`] returns.
    pub open spec fn therm_limit_register(self) -> Register {
        match self {
            Channel::Internal => Register::InternalThermLimit,
            Channel::External1 => Register::External1ThermLimit,
            Channel::External2 => Register::External2ThermLimit,
            Channel::External3 => Register::External3ThermLimit,
        }
    }

    /// THERM Limit register.
    pub fn therm_limit_reg(self) -> (r: Register)
        ensures
            r == self.therm_limit_register(),
    {
        match self {
            Channel::Internal => Register::InternalThermLimit,
            Channel::External1 => Register::External1ThermLimit,
            Channel::External2 => Register::External2ThermLimit,
            Channel::External3 => Register::External3ThermLimit,
        }
    }

    /// Bit position shared by the limit status registers and Channel Mask.
    pub fn status_bit(self) -> (r: u8)
        ensures
            r == self.bit(),
    {
        match self {
            Channel::Internal => 0,
            Channel::External1 => 1,
            Channel::External2 => 2,
            Channel::External3 => 3,
        }
    }
}

/// An external diode channel: the ones with an Ideality Factor register.
#[derive(Debug, Clone, Copy, PartialEq, Eq, Structural)]
pub enum ExternalChannel {
    External1,
    External2,
    External3,
}

impl ExternalChannel {
    /// What [`ExternalChannel::ideality_reg`] returns.
    pub open spec fn ideality_register(self) -> Register {
        match self {
            ExternalChannel::External1 => Register::External1Ideality,
            ExternalChannel::External2 => Register::External2Ideality,
            ExternalChannel::External3 => Register::External3Ideality,
        }
    }

    /// Ideality Factor register of this channel.
    pub fn ideality_reg(self) -> (r: Register)
        ensures
            r == self.ideality_register(),
    {
        match self {
            ExternalChannel::External1 => Register::External1Ideality,
            ExternalChannel::External2 => Register::External2Ideality,
            ExternalChannel::External3 => Register::External3Ideality,
        }
    }
}

/// A channel with a Beta Configuration register (External 1 and 2).
#[derive(Debug, Clone, Copy, PartialEq, Eq, Structural)]
pub enum BetaChannel {
    External1,
    External2,
}

impl BetaChannel {
    /// What [`BetaChannel::beta_config_reg`] returns.
    pub open spec fn beta_config_register(self) -> Register {
        match self {
            BetaChannel::External1 => Register::External1BetaConfig,
            BetaChannel::External2 => Register::External2BetaConfig,
        }
    }

    /// Beta Configuration register of this channel.
    pub fn beta_config_reg(self) -> (r: Register)
        ensures
            r == self.beta_config_register(),
    {
        match self {
            BetaChannel::External1 => Register::External1BetaConfig,
            BetaChannel::External2 => Register::External2BetaConfig,
        }
    }
}

/// Each channel's registers are at its Table 6.1 addresses: temperature
/// high/low bytes Internal 0x00/0x29, External 1 0x01/0x10, External 2
/// 0x23/0x24, External 3 0x2A/0x2B; whole-degree High Limits 0x05, 0x07,
/// 0x15, 0x2C; Low Limits 0x06, 0x08, 0x16, 0x2D; THERM Limits 0x20, 0x19,
/// 0x1A, 0x30; Ideality Factors (external) 0x27, 0x28, 0x31; Beta
/// Configurations 0x25, 0x26. Distinct channels never share a register.
/// In the status and mask registers the internal channel is bit 0 and
/// external diode n is bit n (S5.2, S6.14).
pub proof fn lemma_channel_registers(ch: Channel, other: Channel, x: ExternalChannel, b: BetaChannel)
    ensures
        (ch.temp_registers().0.address(), ch.temp_registers().1.address()) == match ch {
            Channel::Internal => (0x00u8, 0x29u8),
            Channel::External1 => (0x01u8, 0x10u8),
            Channel::External2 => (0x23u8, 0x24u8),
            Channel::External3 => (0x2Au8, 0x2Bu8),
        },
        ch.high_limit_register().address() == match ch {
            Channel::Internal => 0x05u8,
            Channel::External1 => 0x07u8,
            Channel::External2 => 0x15u8,
            Channel::External3 => 0x2Cu8,
        },
        ch.low_limit_register().address() == match ch {
            Channel::Internal => 0x06u8,
            Channel::External1 => 0x08u8,
            Channel::External2 => 0x16u8,
            Channel::External3 => 0x2Du8,
        },
        ch.therm_limit_register().address() == match ch {
            Channel::Internal => 0x20u8,
            Channel::External1 => 0x19u8,
            Channel::External2 => 0x1Au8,
            Channel::External3 => 0x30u8,
        },
        x.ideality_register().address() == match x {
            ExternalChannel::External1 => 0x27u8,
            ExternalChannel::External2 => 0x28u8,
            ExternalChannel::External3 => 0x31u8,
        },
        b.beta_config_register().address() == match b {
            BetaChannel::External1 => 0x25u8,
            BetaChannel::External2 => 0x26u8,
        },
        ch != other ==> ch.temp_registers().0 != other.temp_registers().0
            && ch.temp_registers().1 != other.temp_registers().1,
        ch.bit() as int == match ch {
            Channel::Internal => 0int,
            Channel::External1 => 1int,
            Channel::External2 => 2int,
            Channel::External3 => 3int,
        },
        ch != other ==> ch.bit() != other.bit(),
{
}

} // verus!
