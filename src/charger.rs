use vstd::prelude::*;

verus! {

/// Bit flags of the Charger Function Setting register.
///
/// Every byte is a valid value: bits without a meaning (the reserved bit) are
/// kept as they are, so that a value read from the device can be written back
/// without losing any of its bits.
#[derive(Clone, Copy, Debug, PartialEq, Eq, Structural)]
pub struct ChargerFunctionSetting {
    bits: u8,
}

impl ChargerFunctionSetting {
    // Each flag is the mask of its bit in the register byte; `from_bits_retain`
    // turns a mask, or a union of masks, into a value of this type.

    /// Enable charging.
    pub const EN_CHG: u8 = 0x01;

    /// Enable adaptive charging.
    pub const EN_ADPICHG: u8 = 0x02;

    /// Enable end of charge.
    pub const EN_EOC: u8 = 0x04;

    /// Enable the LDO.
    pub const EN_LDO: u8 = 0x08;

    /// Turn off the ISOFET.
    pub const OFF_ISOFET: u8 = 0x10;

    /// Reserved bit: it carries no meaning and is only ever copied.
    pub const RESERVED: u8 = 0x20;

    /// JEITA cool current limit.
    pub const ILIM_JEITA_COOL: u8 = 0x40;

    /// Enable the JEITA temperature profile.
    pub const EN_JEITA: u8 = 0x80;

    /// The register byte that this value stands for.
    pub closed spec fn spec_bits(self) -> u8 {
        self.bits
    }

    /// The register byte that this value stands for.
    pub fn bits(&self) -> (r: u8)
        ensures
            r == self.spec_bits(),
    {
        self.bits
    }

    /// The value whose register byte is `bits`, every bit kept.
    pub fn from_bits_retain(bits: u8) -> (r: ChargerFunctionSetting)
        ensures
            r.spec_bits() == bits,
    {
        ChargerFunctionSetting { bits }
    }

    /// The value with no bit set.
    pub fn empty() -> (r: ChargerFunctionSetting)
        ensures
            r.spec_bits() == 0,
    {
        ChargerFunctionSetting { bits: 0 }
    }

    /// Whether every bit of `other` is set in `self`.
    pub fn contains(&self, other: ChargerFunctionSetting) -> (r: bool)
        ensures
            r == (self.spec_bits() & other.spec_bits() == other.spec_bits()),
    {
        self.bits & other.bits == other.bits
    }

    /// The bits set in either value.
    pub fn union(self, other: ChargerFunctionSetting) -> (r: ChargerFunctionSetting)
        ensures
            r.spec_bits() == self.spec_bits() | other.spec_bits(),
    {
        ChargerFunctionSetting { bits: self.bits | other.bits }
    }

    /// The bits of `self` that are not set in `other`.
    pub fn difference(self, other: ChargerFunctionSetting) -> (r: ChargerFunctionSetting)
        ensures
            r.spec_bits() == self.spec_bits() & !other.spec_bits(),
    {
        ChargerFunctionSetting { bits: self.bits & !other.bits }
    }

    /// Sets every bit of `other`, leaving the others as they were.
    pub fn insert(&mut self, other: ChargerFunctionSetting)
        ensures
            final(self).spec_bits() == old(self).spec_bits() | other.spec_bits(),
    {
        self.bits = self.bits | other.bits;
    }

    /// Clears every bit of `other`, leaving the others as they were.
    pub fn remove(&mut self, other: ChargerFunctionSetting)
        ensures
            final(self).spec_bits() == old(self).spec_bits() & !other.spec_bits(),
    {
        self.bits = self.bits & !other.bits;
    }
}

} // verus!
