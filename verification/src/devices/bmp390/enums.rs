//! The settings that the BMP390's registers encode.

use vstd::prelude::*;

verus! {

/// How the interrupt pin is driven.
#[derive(Clone, Copy, PartialEq, Eq, Debug, Structural)]
pub enum InteruptOutput {
    OpenDrain,
    PushPull,
}

impl InteruptOutput {
    /// The bits that stand for this drive in a register.
    pub open spec fn bits(self) -> u8 {
        match self {
            InteruptOutput::OpenDrain => 1,
            InteruptOutput::PushPull => 0,
        }
    }

    /// The drive that `bits` stand for. A pattern that no drive owns reads as
    /// `PushPull`.
    pub open spec fn of_bits(bits: u8) -> Self {
        if bits == 1 {
            InteruptOutput::OpenDrain
        } else {
            InteruptOutput::PushPull
        }
    }

    /// The bits that stand for this drive in a register.
    pub fn into_primitive(self) -> (bits: u8)
        ensures
            bits == self.bits(),
            bits <= 1,
            Self::of_bits(bits) == self,
    {
        match self {
            InteruptOutput::OpenDrain => 1,
            InteruptOutput::PushPull => 0,
        }
    }

    /// Reads a drive from register bits; see [`Self::of_bits`].
    pub fn from_primitive(input: u8) -> (v: Self)
        ensures
            v == Self::of_bits(input),
    {
        if input == 1 {
            InteruptOutput::OpenDrain
        } else {
            InteruptOutput::PushPull
        }
    }
}

impl Default for InteruptOutput {
    fn default() -> (v: Self)
        ensures
            v == InteruptOutput::PushPull,
    {
        InteruptOutput::PushPull
    }
}

/// The sensor's measurement mode.
#[derive(Clone, Copy, PartialEq, Eq, Debug, Structural)]
pub enum PowerMode {
    /// No measurements.
    Sleep,
    /// One measurement, then back to sleep.
    Forced,
    /// Measurements at the output data rate.
    Normal,
}

impl PowerMode {
    /// The bits that stand for this mode in a register.
    pub open spec fn bits(self) -> u8 {
        match self {
            PowerMode::Sleep => 0b00,
            PowerMode::Forced => 0b01,
            PowerMode::Normal => 0b11,
        }
    }

    /// The mode that `bits` stand for. A pattern that no mode owns reads as
    /// `Normal`.
    pub open spec fn of_bits(bits: u8) -> Self {
        if bits == 0b00 {
            PowerMode::Sleep
        } else if bits == 0b01 {
            PowerMode::Forced
        } else {
            PowerMode::Normal
        }
    }

    /// The bits that stand for this mode in a register.
    pub fn into_primitive(self) -> (bits: u8)
        ensures
            bits == self.bits(),
            bits <= 3,
            Self::of_bits(bits) == self,
    {
        match self {
            PowerMode::Sleep => 0b00,
            PowerMode::Forced => 0b01,
            PowerMode::Normal => 0b11,
        }
    }

    /// Reads a mode from register bits; see [`Self::of_bits`].
    pub fn from_primitive(input: u8) -> (v: Self)
        ensures
            v == Self::of_bits(input),
    {
        if input == 0b00 {
            PowerMode::Sleep
        } else if input == 0b01 {
            PowerMode::Forced
        } else {
            PowerMode::Normal
        }
    }
}

impl Default for PowerMode {
    fn default() -> (v: Self)
        ensures
            v == PowerMode::Normal,
    {
        PowerMode::Normal
    }
}

/// How many samples go into one reading.
#[derive(Clone, Copy, PartialEq, Eq, Debug, Structural)]
pub enum OversamplingSetting {
    X1,
    X2,
    X4,
    X8,
    X16,
    X32,
}

impl OversamplingSetting {
    /// The bits that stand for this setting in a register.
    pub open spec fn bits(self) -> u8 {
        match self {
            OversamplingSetting::X1 => 0b000,
            OversamplingSetting::X2 => 0b001,
            OversamplingSetting::X4 => 0b010,
            OversamplingSetting::X8 => 0b011,
            OversamplingSetting::X16 => 0b100,
            OversamplingSetting::X32 => 0b101,
        }
    }

    /// The setting that `bits` stand for. A pattern that no setting owns reads as
    /// `X32`.
    pub open spec fn of_bits(bits: u8) -> Self {
        if bits == 0b000 {
            OversamplingSetting::X1
        } else if bits == 0b001 {
            OversamplingSetting::X2
        } else if bits == 0b010 {
            OversamplingSetting::X4
        } else if bits == 0b011 {
            OversamplingSetting::X8
        } else if bits == 0b100 {
            OversamplingSetting::X16
        } else {
            OversamplingSetting::X32
        }
    }

    /// The bits that stand for this setting in a register.
    pub fn into_primitive(self) -> (bits: u8)
        ensures
            bits == self.bits(),
            bits <= 5,
            Self::of_bits(bits) == self,
    {
        match self {
            OversamplingSetting::X1 => 0b000,
            OversamplingSetting::X2 => 0b001,
            OversamplingSetting::X4 => 0b010,
            OversamplingSetting::X8 => 0b011,
            OversamplingSetting::X16 => 0b100,
            OversamplingSetting::X32 => 0b101,
        }
    }

    /// Reads a setting from register bits; see [`Self::of_bits`].
    pub fn from_primitive(input: u8) -> (v: Self)
        ensures
            v == Self::of_bits(input),
    {
        if input == 0b000 {
            OversamplingSetting::X1
        } else if input == 0b001 {
            OversamplingSetting::X2
        } else if input == 0b010 {
            OversamplingSetting::X4
        } else if input == 0b011 {
            OversamplingSetting::X8
        } else if input == 0b100 {
            OversamplingSetting::X16
        } else {
            OversamplingSetting::X32
        }
    }
}

impl Default for OversamplingSetting {
    fn default() -> (v: Self)
        ensures
            v == OversamplingSetting::X1,
    {
        OversamplingSetting::X1
    }
}

/// The coefficient of the IIR filter on the readings.
#[derive(Clone, Copy, PartialEq, Eq, Debug, Structural)]
pub enum IIRFilter {
    Coeff0,
    Coeff1,
    Coeff3,
    Coeff7,
    Coeff15,
    Coeff31,
    Coeff63,
    Coeff127,
}

impl IIRFilter {
    /// The bits that stand for this coefficient in a register.
    pub open spec fn bits(self) -> u8 {
        match self {
            IIRFilter::Coeff0 => 0b000,
            IIRFilter::Coeff1 => 0b001,
            IIRFilter::Coeff3 => 0b010,
            IIRFilter::Coeff7 => 0b011,
            IIRFilter::Coeff15 => 0b100,
            IIRFilter::Coeff31 => 0b101,
            IIRFilter::Coeff63 => 0b110,
            IIRFilter::Coeff127 => 0b111,
        }
    }

    /// The coefficient that `bits` stand for. A pattern that no coefficient owns reads as
    /// `Coeff127`.
    pub open spec fn of_bits(bits: u8) -> Self {
        if bits == 0b000 {
            IIRFilter::Coeff0
        } else if bits == 0b001 {
            IIRFilter::Coeff1
        } else if bits == 0b010 {
            IIRFilter::Coeff3
        } else if bits == 0b011 {
            IIRFilter::Coeff7
        } else if bits == 0b100 {
            IIRFilter::Coeff15
        } else if bits == 0b101 {
            IIRFilter::Coeff31
        } else if bits == 0b110 {
            IIRFilter::Coeff63
        } else {
            IIRFilter::Coeff127
        }
    }

    /// The bits that stand for this coefficient in a register.
    pub fn into_primitive(self) -> (bits: u8)
        ensures
            bits == self.bits(),
            bits <= 7,
            Self::of_bits(bits) == self,
    {
        match self {
            IIRFilter::Coeff0 => 0b000,
            IIRFilter::Coeff1 => 0b001,
            IIRFilter::Coeff3 => 0b010,
            IIRFilter::Coeff7 => 0b011,
            IIRFilter::Coeff15 => 0b100,
            IIRFilter::Coeff31 => 0b101,
            IIRFilter::Coeff63 => 0b110,
            IIRFilter::Coeff127 => 0b111,
        }
    }

    /// Reads a coefficient from register bits; see [`Self::of_bits`].
    pub fn from_primitive(input: u8) -> (v: Self)
        ensures
            v == Self::of_bits(input),
    {
        if input == 0b000 {
            IIRFilter::Coeff0
        } else if input == 0b001 {
            IIRFilter::Coeff1
        } else if input == 0b010 {
            IIRFilter::Coeff3
        } else if input == 0b011 {
            IIRFilter::Coeff7
        } else if input == 0b100 {
            IIRFilter::Coeff15
        } else if input == 0b101 {
            IIRFilter::Coeff31
        } else if input == 0b110 {
            IIRFilter::Coeff63
        } else {
            IIRFilter::Coeff127
        }
    }
}

impl Default for IIRFilter {
    fn default() -> (v: Self)
        ensures
            v == IIRFilter::Coeff0,
    {
        IIRFilter::Coeff0
    }
}

} // verus!
