//! Bit layouts of the status, configuration and per-channel registers
//! (datasheet S5.2-5.4, S12). The High/Low/THERM Limit Status registers and
//! Channel Mask share one four-channel bit shape.

use vstd::prelude::*;

use super::channel::Channel;

verus! {

/// Status register (0x02). None of these bits clear by reading 0x02
/// itself: HIGH/LOW/FAULT clear via their own read-to-clear registers, and
/// THERM only once temperature drops below (THERM limit - hysteresis).
#[derive(Debug, Clone, Copy, PartialEq, Eq, Structural)]
pub struct Status {
    bits: u8,
}

impl View for Status {
    type V = u8;

    closed spec fn view(&self) -> u8 {
        self.bits
    }
}

impl Status {
    pub fn busy() -> (r: Status)
        ensures
            r@ == 0x80,
    {
        Status { bits: 0x80 }
    }

    pub fn high() -> (r: Status)
        ensures
            r@ == 0x10,
    {
        Status { bits: 0x10 }
    }

    pub fn low() -> (r: Status)
        ensures
            r@ == 0x8,
    {
        Status { bits: 0x8 }
    }

    pub fn fault() -> (r: Status)
        ensures
            r@ == 0x4,
    {
        Status { bits: 0x4 }
    }

    pub fn therm() -> (r: Status)
        ensures
            r@ == 0x2,
    {
        Status { bits: 0x2 }
    }

    /// Every bit this register defines.
    pub open spec fn mask() -> u8 {
        0x9e
    }

    pub closed spec fn from_view(bits: u8) -> Status {
        Status { bits }
    }

    pub fn empty() -> (r: Self)
        ensures
            r@ == 0,
    {
        Status { bits: 0 }
    }

    pub fn all() -> (r: Self)
        ensures
            r@ == Self::mask(),
    {
        Status { bits: 0x9e }
    }

    /// Keeps only the bits this register defines.
    pub fn from_bits_truncate(bits: u8) -> (r: Self)
        ensures
            r@ == bits & Self::mask(),
    {
        Status { bits: bits & 0x9e }
    }

    pub fn bits(&self) -> (r: u8)
        ensures
            r == self@,
    {
        self.bits
    }

    /// Whether every bit of `other` is set here.
    pub fn contains(&self, other: Self) -> (r: bool)
        ensures
            r == (self@ & other@ == other@),
    {
        self.bits & other.bits == other.bits
    }

    /// Whether some bit of `other` is set here.
    pub fn intersects(&self, other: Self) -> (r: bool)
        ensures
            r == (self@ & other@ != 0),
    {
        self.bits & other.bits != 0
    }

    pub fn is_empty(&self) -> (r: bool)
        ensures
            r == (self@ == 0),
    {
        self.bits == 0
    }

    pub fn union(self, other: Self) -> (r: Self)
        ensures
            r@ == self@ | other@,
    {
        Status { bits: self.bits | other.bits }
    }

    pub fn insert(&mut self, other: Self)
        ensures
            final(self)@ == old(self)@ | other@,
    {
        self.bits = self.bits | other.bits;
    }

    pub fn remove(&mut self, other: Self)
        ensures
            final(self)@ == old(self)@ & !other@,
    {
        self.bits = self.bits & !other.bits;
    }
}

/// Configuration register (0x03/0x09, mirrored).
#[derive(Debug, Clone, Copy, PartialEq, Eq, Structural)]
pub struct Configuration {
    bits: u8,
}

impl View for Configuration {
    type V = u8;

    closed spec fn view(&self) -> u8 {
        self.bits
    }
}

impl Configuration {
    pub fn mask_all() -> (r: Configuration)
        ensures
            r@ == 0x80,
    {
        Configuration { bits: 0x80 }
    }

    /// Set = Standby (not converting). Clear = Active.
    pub fn standby() -> (r: Configuration)
        ensures
            r@ == 0x40,
    {
        Configuration { bits: 0x40 }
    }

    /// Set = ALERT pin in comparator mode. Clear = interrupt mode.
    pub fn alert_comp() -> (r: Configuration)
        ensures
            r@ == 0x20,
    {
        Configuration { bits: 0x20 }
    }

    /// Set = REC disabled for External Diode 1.
    pub fn recd1() -> (r: Configuration)
        ensures
            r@ == 0x10,
    {
        Configuration { bits: 0x10 }
    }

    /// Set = REC disabled for External Diodes 2 and 3.
    pub fn recd2() -> (r: Configuration)
        ensures
            r@ == 0x8,
    {
        Configuration { bits: 0x8 }
    }

    /// Set = extended range (-64..+191.875C, offset binary). Clear = standard
    /// range (0..+127.875C, unsigned binary).
    pub fn range() -> (r: Configuration)
        ensures
            r@ == 0x4,
    {
        Configuration { bits: 0x4 }
    }

    /// Set = dynamic averaging disabled.
    pub fn davg_dis() -> (r: Configuration)
        ensures
            r@ == 0x2,
    {
        Configuration { bits: 0x2 }
    }

    /// EMC1404 only. Clear = anti-parallel diode mode on DP2/DN2.
    pub fn apdd() -> (r: Configuration)
        ensures
            r@ == 0x1,
    {
        Configuration { bits: 0x1 }
    }

    /// Every bit this register defines.
    pub open spec fn mask() -> u8 {
        0xff
    }

    pub closed spec fn from_view(bits: u8) -> Configuration {
        Configuration { bits }
    }

    pub fn empty() -> (r: Self)
        ensures
            r@ == 0,
    {
        Configuration { bits: 0 }
    }

    pub fn all() -> (r: Self)
        ensures
            r@ == Self::mask(),
    {
        Configuration { bits: 0xff }
    }

    /// Keeps only the bits this register defines.
    pub fn from_bits_truncate(bits: u8) -> (r: Self)
        ensures
            r@ == bits & Self::mask(),
    {
        Configuration { bits: bits & 0xff }
    }

    pub fn bits(&self) -> (r: u8)
        ensures
            r == self@,
    {
        self.bits
    }

    /// Whether every bit of `other` is set here.
    pub fn contains(&self, other: Self) -> (r: bool)
        ensures
            r == (self@ & other@ == other@),
    {
        self.bits & other.bits == other.bits
    }

    /// Whether some bit of `other` is set here.
    pub fn intersects(&self, other: Self) -> (r: bool)
        ensures
            r == (self@ & other@ != 0),
    {
        self.bits & other.bits != 0
    }

    pub fn is_empty(&self) -> (r: bool)
        ensures
            r == (self@ == 0),
    {
        self.bits == 0
    }

    pub fn union(self, other: Self) -> (r: Self)
        ensures
            r@ == self@ | other@,
    {
        Configuration { bits: self.bits | other.bits }
    }

    pub fn insert(&mut self, other: Self)
        ensures
            final(self)@ == old(self)@ | other@,
    {
        self.bits = self.bits | other.bits;
    }

    pub fn remove(&mut self, other: Self)
        ensures
            final(self)@ == old(self)@ & !other@,
    {
        self.bits = self.bits & !other.bits;
    }
}

/// Shared bit shape of High Limit Status (0x35), Low Limit Status (0x36)
/// and THERM Limit Status (0x37); their clear semantics differ per register.
#[derive(Debug, Clone, Copy, PartialEq, Eq, Structural)]
pub struct LimitStatus {
    bits: u8,
}

impl View for LimitStatus {
    type V = u8;

    closed spec fn view(&self) -> u8 {
        self.bits
    }
}

impl LimitStatus {
    pub fn external3() -> (r: LimitStatus)
        ensures
            r@ == 0x8,
    {
        LimitStatus { bits: 0x8 }
    }

    pub fn external2() -> (r: LimitStatus)
        ensures
            r@ == 0x4,
    {
        LimitStatus { bits: 0x4 }
    }

    pub fn external1() -> (r: LimitStatus)
        ensures
            r@ == 0x2,
    {
        LimitStatus { bits: 0x2 }
    }

    pub fn internal() -> (r: LimitStatus)
        ensures
            r@ == 0x1,
    {
        LimitStatus { bits: 0x1 }
    }

    /// Every bit this register defines.
    pub open spec fn mask() -> u8 {
        0xf
    }

    pub closed spec fn from_view(bits: u8) -> LimitStatus {
        LimitStatus { bits }
    }

    pub fn empty() -> (r: Self)
        ensures
            r@ == 0,
    {
        LimitStatus { bits: 0 }
    }

    pub fn all() -> (r: Self)
        ensures
            r@ == Self::mask(),
    {
        LimitStatus { bits: 0xf }
    }

    /// Keeps only the bits this register defines.
    pub fn from_bits_truncate(bits: u8) -> (r: Self)
        ensures
            r@ == bits & Self::mask(),
    {
        LimitStatus { bits: bits & 0xf }
    }

    pub fn bits(&self) -> (r: u8)
        ensures
            r == self@,
    {
        self.bits
    }

    /// Whether every bit of `other` is set here.
    pub fn contains(&self, other: Self) -> (r: bool)
        ensures
            r == (self@ & other@ == other@),
    {
        self.bits & other.bits == other.bits
    }

    /// Whether some bit of `other` is set here.
    pub fn intersects(&self, other: Self) -> (r: bool)
        ensures
            r == (self@ & other@ != 0),
    {
        self.bits & other.bits != 0
    }

    pub fn is_empty(&self) -> (r: bool)
        ensures
            r == (self@ == 0),
    {
        self.bits == 0
    }

    pub fn union(self, other: Self) -> (r: Self)
        ensures
            r@ == self@ | other@,
    {
        LimitStatus { bits: self.bits | other.bits }
    }

    pub fn insert(&mut self, other: Self)
        ensures
            final(self)@ == old(self)@ | other@,
    {
        self.bits = self.bits | other.bits;
    }

    pub fn remove(&mut self, other: Self)
        ensures
            final(self)@ == old(self)@ & !other@,
    {
        self.bits = self.bits & !other.bits;
    }
}

/// External Diode Fault register (0x1B). The internal diode has no bit.
#[derive(Debug, Clone, Copy, PartialEq, Eq, Structural)]
pub struct DiodeFault {
    bits: u8,
}

impl View for DiodeFault {
    type V = u8;

    closed spec fn view(&self) -> u8 {
        self.bits
    }
}

impl DiodeFault {
    pub fn external3() -> (r: DiodeFault)
        ensures
            r@ == 0x8,
    {
        DiodeFault { bits: 0x8 }
    }

    pub fn external2() -> (r: DiodeFault)
        ensures
            r@ == 0x4,
    {
        DiodeFault { bits: 0x4 }
    }

    pub fn external1() -> (r: DiodeFault)
        ensures
            r@ == 0x2,
    {
        DiodeFault { bits: 0x2 }
    }

    /// Every bit this register defines.
    pub open spec fn mask() -> u8 {
        0xe
    }

    pub closed spec fn from_view(bits: u8) -> DiodeFault {
        DiodeFault { bits }
    }

    pub fn empty() -> (r: Self)
        ensures
            r@ == 0,
    {
        DiodeFault { bits: 0 }
    }

    pub fn all() -> (r: Self)
        ensures
            r@ == Self::mask(),
    {
        DiodeFault { bits: 0xe }
    }

    /// Keeps only the bits this register defines.
    pub fn from_bits_truncate(bits: u8) -> (r: Self)
        ensures
            r@ == bits & Self::mask(),
    {
        DiodeFault { bits: bits & 0xe }
    }

    pub fn bits(&self) -> (r: u8)
        ensures
            r == self@,
    {
        self.bits
    }

    /// Whether every bit of `other` is set here.
    pub fn contains(&self, other: Self) -> (r: bool)
        ensures
            r == (self@ & other@ == other@),
    {
        self.bits & other.bits == other.bits
    }

    /// Whether some bit of `other` is set here.
    pub fn intersects(&self, other: Self) -> (r: bool)
        ensures
            r == (self@ & other@ != 0),
    {
        self.bits & other.bits != 0
    }

    pub fn is_empty(&self) -> (r: bool)
        ensures
            r == (self@ == 0),
    {
        self.bits == 0
    }

    pub fn union(self, other: Self) -> (r: Self)
        ensures
            r@ == self@ | other@,
    {
        DiodeFault { bits: self.bits | other.bits }
    }

    pub fn insert(&mut self, other: Self)
        ensures
            final(self)@ == old(self)@ | other@,
    {
        self.bits = self.bits | other.bits;
    }

    pub fn remove(&mut self, other: Self)
        ensures
            final(self)@ == old(self)@ & !other@,
    {
        self.bits = self.bits & !other.bits;
    }
}

/// Channel Mask register (0x1F). A set bit keeps that channel from
/// asserting ALERT; THERM is never affected.
#[derive(Debug, Clone, Copy, PartialEq, Eq, Structural)]
pub struct ChannelMask {
    bits: u8,
}

impl View for ChannelMask {
    type V = u8;

    closed spec fn view(&self) -> u8 {
        self.bits
    }
}

impl ChannelMask {
    pub fn external3() -> (r: ChannelMask)
        ensures
            r@ == 0x8,
    {
        ChannelMask { bits: 0x8 }
    }

    pub fn external2() -> (r: ChannelMask)
        ensures
            r@ == 0x4,
    {
        ChannelMask { bits: 0x4 }
    }

    pub fn external1() -> (r: ChannelMask)
        ensures
            r@ == 0x2,
    {
        ChannelMask { bits: 0x2 }
    }

    pub fn internal() -> (r: ChannelMask)
        ensures
            r@ == 0x1,
    {
        ChannelMask { bits: 0x1 }
    }

    /// Every bit this register defines.
    pub open spec fn mask() -> u8 {
        0xf
    }

    pub closed spec fn from_view(bits: u8) -> ChannelMask {
        ChannelMask { bits }
    }

    pub fn empty() -> (r: Self)
        ensures
            r@ == 0,
    {
        ChannelMask { bits: 0 }
    }

    pub fn all() -> (r: Self)
        ensures
            r@ == Self::mask(),
    {
        ChannelMask { bits: 0xf }
    }

    /// Keeps only the bits this register defines.
    pub fn from_bits_truncate(bits: u8) -> (r: Self)
        ensures
            r@ == bits & Self::mask(),
    {
        ChannelMask { bits: bits & 0xf }
    }

    pub fn bits(&self) -> (r: u8)
        ensures
            r == self@,
    {
        self.bits
    }

    /// Whether every bit of `other` is set here.
    pub fn contains(&self, other: Self) -> (r: bool)
        ensures
            r == (self@ & other@ == other@),
    {
        self.bits & other.bits == other.bits
    }

    /// Whether some bit of `other` is set here.
    pub fn intersects(&self, other: Self) -> (r: bool)
        ensures
            r == (self@ & other@ != 0),
    {
        self.bits & other.bits != 0
    }

    pub fn is_empty(&self) -> (r: bool)
        ensures
            r == (self@ == 0),
    {
        self.bits == 0
    }

    pub fn union(self, other: Self) -> (r: Self)
        ensures
            r@ == self@ | other@,
    {
        ChannelMask { bits: self.bits | other.bits }
    }

    pub fn insert(&mut self, other: Self)
        ensures
            final(self)@ == old(self)@ | other@,
    {
        self.bits = self.bits | other.bits;
    }

    pub fn remove(&mut self, other: Self)
        ensures
            final(self)@ == old(self)@ & !other@,
    {
        self.bits = self.bits & !other.bits;
    }
}

impl LimitStatus {
    /// The single bit corresponding to `ch`.
    pub fn for_channel(ch: Channel) -> (r: Self)
        ensures
            r@ == 1u8 << ch.bit(),
    {
        let b = ch.status_bit();
        assert(b <= 3 ==> (1u8 << b) & 0xf == 1u8 << b) by (bit_vector);
        Self::from_bits_truncate(1 << b)
    }
}

impl DiodeFault {
    /// The single bit corresponding to `ch`; empty for the internal channel,
    /// which has no fault bit.
    pub fn for_channel(ch: Channel) -> (r: Self)
        ensures
            r@ == (1u8 << ch.bit()) & 0xe,
            ch == Channel::Internal <==> r@ == 0,
    {
        let b = ch.status_bit();
        assert(b <= 3 ==> (((1u8 << b) & 0xe == 0) <==> b == 0)) by (bit_vector);
        Self::from_bits_truncate(1 << b)
    }
}

impl ChannelMask {
    /// The single bit corresponding to `ch`.
    pub fn for_channel(ch: Channel) -> (r: Self)
        ensures
            r@ == 1u8 << ch.bit(),
    {
        let b = ch.status_bit();
        assert(b <= 3 ==> (1u8 << b) & 0xf == 1u8 << b) by (bit_vector);
        Self::from_bits_truncate(1 << b)
    }
}

/// A channel's limit status bit is its channel mask bit.
pub proof fn lemma_limit_status_bit_is_channel_mask_bit(ch: Channel)
    ensures
        1u8 << ch.bit() == (1u8 << ch.bit()) & LimitStatus::mask(),
        LimitStatus::mask() == ChannelMask::mask(),
{
    let b = ch.bit();
    assert(b <= 3 ==> (1u8 << b) & 0xf == 1u8 << b) by (bit_vector);
}

} // verus!
