//! Fixed 7-bit SMBus addresses (datasheet S1): the part has no address pin,
//! so which of these applies is set at the factory by order code.

use vstd::prelude::*;

verus! {

pub const EMC1403_1_EMC1404_1: u8 = 0x4C;

pub const EMC1403_2_EMC1404_2: u8 = 0x4D;

pub const EMC1403_3_EMC1404_3: u8 = 0x18;

pub const EMC1403_4_EMC1404_4: u8 = 0x29;

} // verus!
