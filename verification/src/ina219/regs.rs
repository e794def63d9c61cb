//! Register addresses, INA219 datasheet (TI SBOS448) register map: six
//! register-pointer values, 0x00-0x05, with no auto-increment across them.

use vstd::prelude::*;

verus! {

/// A register address.
#[derive(Debug, Clone, Copy, PartialEq, Eq, Structural)]
pub enum Register {
    Configuration,
    ShuntVoltage,
    BusVoltage,
    Power,
    Current,
    Calibration,
}

impl Register {
    /// The register-pointer value of each register.
    pub open spec fn address(self) -> u8 {
        match self {
            Register::Configuration => 0x00,
            Register::ShuntVoltage => 0x01,
            Register::BusVoltage => 0x02,
            Register::Power => 0x03,
            Register::Current => 0x04,
            Register::Calibration => 0x05,
        }
    }
}

impl From<Register> for u8 {
    fn from(reg: Register) -> (r: u8) {
        match reg {
            Register::Configuration => 0x00,
            Register::ShuntVoltage => 0x01,
            Register::BusVoltage => 0x02,
            Register::Power => 0x03,
            Register::Current => 0x04,
            Register::Calibration => 0x05,
        }
    }
}

impl vstd::std_specs::convert::FromSpecImpl<Register> for u8 {
    open spec fn obeys_from_spec() -> bool {
        true
    }

    open spec fn from_spec(v: Register) -> u8 {
        v.address()
    }
}

/// The datasheet's register map (Table 2), in pointer order.
pub open spec fn datasheet_register_map() -> Seq<Register> {
    seq![
        Register::Configuration,
        Register::ShuntVoltage,
        Register::BusVoltage,
        Register::Power,
        Register::Current,
        Register::Calibration,
    ]
}

/// Each register's pointer is its position in the datasheet's register map
/// (Configuration 0x00, Shunt Voltage 0x01, Bus Voltage 0x02, Power 0x03,
/// Current 0x04, Calibration 0x05): every register is at its own pointer,
/// and distinct registers have distinct pointers.
pub proof fn lemma_register_pointers(r: Register, q: Register)
    ensures
        r.address() < 6,
        datasheet_register_map()[r.address() as int] == r,
        forall|i: int| 0 <= i < 6 ==> (#[trigger] datasheet_register_map()[i]).address() == i,
        r.address() == q.address() ==> r == q,
{
    assert forall|i: int| 0 <= i < 6 implies (#[trigger] datasheet_register_map()[i]).address()
        == i by {}
}

} // verus!
