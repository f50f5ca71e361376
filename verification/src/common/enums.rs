//! Values shared by more than one device.

use vstd::prelude::*;

verus! {

/// The logic level of a pin or a bus line.
#[derive(Clone, Copy, PartialEq, Eq, Debug, Structural)]
pub enum LogicLevel {
    High,
    Low,
}

impl LogicLevel {
    /// The bits that stand for this level in a register.
    pub open spec fn bits(self) -> u8 {
        match self {
            LogicLevel::High => 1,
            LogicLevel::Low => 0,
        }
    }

    /// The level that `bits` stand for. A pattern that no level owns reads as
    /// `Low`.
    pub open spec fn of_bits(bits: u8) -> Self {
        if bits == 1 {
            LogicLevel::High
        } else {
            LogicLevel::Low
        }
    }

    /// The bits that stand for this level in a register.
    pub fn into_primitive(self) -> (bits: u8)
        ensures
            bits == self.bits(),
            bits <= 1,
            Self::of_bits(bits) == self,
    {
        match self {
            LogicLevel::High => 1,
            LogicLevel::Low => 0,
        }
    }

    /// Reads a level from register bits; see [`Self::of_bits`].
    pub fn from_primitive(input: u8) -> (v: Self)
        ensures
            v == Self::of_bits(input),
    {
        if input == 1 {
            LogicLevel::High
        } else {
            LogicLevel::Low
        }
    }
}

impl Default for LogicLevel {
    fn default() -> (v: Self)
        ensures
            v == LogicLevel::Low,
    {
        LogicLevel::Low
    }
}

} // verus!
