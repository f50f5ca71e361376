//! The four registers of the PCA9557, one byte each, one bit per pin.

use vstd::prelude::*;
use crate::common::bits::{field, get_field, pack_msb0};
use crate::common::enums::LogicLevel;

verus! {

/// The logic levels that arrive at the pins, whatever their direction.
#[derive(Clone, Copy, PartialEq, Eq, Debug)]
pub struct InputPort {
    /// The register's raw content.
    pub data: [u8; 1],
}

impl InputPort {
    /// The register's address on the device.
    pub const ADDRESS: u8 = 0x00;

    /// The level at each pin. The first entry is bit 7, the last bit 0.
    pub open spec fn pins(&self) -> Seq<LogicLevel> {
        Seq::new(8, |i: int| LogicLevel::of_bits(field(self.data[0], (7 - i) as u8, 1)))
    }

    /// Reads the eight pins, bit 7 first.
    pub fn read_pins(&self) -> (pins: [LogicLevel; 8])
        ensures
            pins@ == self.pins(),
    {
        let byte: u8 = self.data[0];
        let pins: [LogicLevel; 8] = [
            LogicLevel::from_primitive(get_field(byte, 7, 1)),
            LogicLevel::from_primitive(get_field(byte, 6, 1)),
            LogicLevel::from_primitive(get_field(byte, 5, 1)),
            LogicLevel::from_primitive(get_field(byte, 4, 1)),
            LogicLevel::from_primitive(get_field(byte, 3, 1)),
            LogicLevel::from_primitive(get_field(byte, 2, 1)),
            LogicLevel::from_primitive(get_field(byte, 1, 1)),
            LogicLevel::from_primitive(get_field(byte, 0, 1)),
        ];
        assert(pins@ =~= self.pins());
        pins
    }

    /// Sets all eight pins, the first entry into bit 7.
    pub fn write_pins(&mut self, pins: [LogicLevel; 8])
        ensures
            final(self).pins() == pins@,
    {
        let bits: [u8; 8] = [
            pins[0].into_primitive(),
            pins[1].into_primitive(),
            pins[2].into_primitive(),
            pins[3].into_primitive(),
            pins[4].into_primitive(),
            pins[5].into_primitive(),
            pins[6].into_primitive(),
            pins[7].into_primitive(),
        ];
        self.data = [pack_msb0(bits)];
        assert forall|i: int| 0 <= i < 8 implies self.pins()[i] == pins@[i] by {
            assert(field(self.data[0], (7 - i) as u8, 1) == bits@[i]);
        }
        assert(self.pins() =~= pins@);
    }
}

impl Default for InputPort {
    /// The register with every pin at `LogicLevel::Low`.
    fn default() -> (r: Self)
        ensures
            r.pins() == Seq::new(8, |i: int| LogicLevel::Low),
    {
        let mut r = InputPort { data: [0] };
        let level: LogicLevel = LogicLevel::Low;
        r.write_pins([level, level, level, level, level, level, level, level]);
        assert(r.pins() =~= Seq::new(8, |i: int| LogicLevel::Low));
        r
    }
}

/// The logic levels that the pins set as outputs drive.
#[derive(Clone, Copy, PartialEq, Eq, Debug)]
pub struct OutputPort {
    /// The register's raw content.
    pub data: [u8; 1],
}

impl OutputPort {
    /// The register's address on the device.
    pub const ADDRESS: u8 = 0x01;

    /// The level each pin drives. The first entry is bit 7, the last bit 0.
    pub open spec fn pins(&self) -> Seq<LogicLevel> {
        Seq::new(8, |i: int| LogicLevel::of_bits(field(self.data[0], (7 - i) as u8, 1)))
    }

    /// Reads the eight pins, bit 7 first.
    pub fn read_pins(&self) -> (pins: [LogicLevel; 8])
        ensures
            pins@ == self.pins(),
    {
        let byte: u8 = self.data[0];
        let pins: [LogicLevel; 8] = [
            LogicLevel::from_primitive(get_field(byte, 7, 1)),
            LogicLevel::from_primitive(get_field(byte, 6, 1)),
            LogicLevel::from_primitive(get_field(byte, 5, 1)),
            LogicLevel::from_primitive(get_field(byte, 4, 1)),
            LogicLevel::from_primitive(get_field(byte, 3, 1)),
            LogicLevel::from_primitive(get_field(byte, 2, 1)),
            LogicLevel::from_primitive(get_field(byte, 1, 1)),
            LogicLevel::from_primitive(get_field(byte, 0, 1)),
        ];
        assert(pins@ =~= self.pins());
        pins
    }

    /// Sets all eight pins, the first entry into bit 7.
    pub fn write_pins(&mut self, pins: [LogicLevel; 8])
        ensures
            final(self).pins() == pins@,
    {
        let bits: [u8; 8] = [
            pins[0].into_primitive(),
            pins[1].into_primitive(),
            pins[2].into_primitive(),
            pins[3].into_primitive(),
            pins[4].into_primitive(),
            pins[5].into_primitive(),
            pins[6].into_primitive(),
            pins[7].into_primitive(),
        ];
        self.data = [pack_msb0(bits)];
        assert forall|i: int| 0 <= i < 8 implies self.pins()[i] == pins@[i] by {
            assert(field(self.data[0], (7 - i) as u8, 1) == bits@[i]);
        }
        assert(self.pins() =~= pins@);
    }
}

impl Default for OutputPort {
    /// The register with every pin at `LogicLevel::Low`.
    fn default() -> (r: Self)
        ensures
            r.pins() == Seq::new(8, |i: int| LogicLevel::Low),
    {
        let mut r = OutputPort { data: [0] };
        let level: LogicLevel = LogicLevel::Low;
        r.write_pins([level, level, level, level, level, level, level, level]);
        assert(r.pins() =~= Seq::new(8, |i: int| LogicLevel::Low));
        r
    }
}

/// Whether the input register shows a pin's level as it is or inverted.
#[derive(Clone, Copy, PartialEq, Eq, Debug, Structural)]
pub enum Polarity {
    Inverted,
    Original,
}

impl Polarity {
    /// The bits that stand for this polarity in a register.
    pub open spec fn bits(self) -> u8 {
        match self {
            Polarity::Inverted => 1,
            Polarity::Original => 0,
        }
    }

    /// The polarity that `bits` stand for. A pattern that no polarity owns reads as
    /// `Original`.
    pub open spec fn of_bits(bits: u8) -> Self {
        if bits == 1 {
            Polarity::Inverted
        } else {
            Polarity::Original
        }
    }

    /// The bits that stand for this polarity in a register.
    pub fn into_primitive(self) -> (bits: u8)
        ensures
            bits == self.bits(),
            bits <= 1,
            Self::of_bits(bits) == self,
    {
        match self {
            Polarity::Inverted => 1,
            Polarity::Original => 0,
        }
    }

    /// Reads a polarity from register bits; see [`Self::of_bits`].
    pub fn from_primitive(input: u8) -> (v: Self)
        ensures
            v == Self::of_bits(input),
    {
        if input == 1 {
            Polarity::Inverted
        } else {
            Polarity::Original
        }
    }
}

impl Default for Polarity {
    fn default() -> (v: Self)
        ensures
            v == Polarity::Inverted,
    {
        Polarity::Inverted
    }
}

/// Which pins show up inverted in the input register.
#[derive(Clone, Copy, PartialEq, Eq, Debug)]
pub struct PolarityInversion {
    /// The register's raw content.
    pub data: [u8; 1],
}

impl PolarityInversion {
    /// The register's address on the device.
    pub const ADDRESS: u8 = 0x02;

    /// The polarity of each pin. The first entry is bit 7, the last bit 0.
    pub open spec fn pins(&self) -> Seq<Polarity> {
        Seq::new(8, |i: int| Polarity::of_bits(field(self.data[0], (7 - i) as u8, 1)))
    }

    /// Reads the eight pins, bit 7 first.
    pub fn read_pins(&self) -> (pins: [Polarity; 8])
        ensures
            pins@ == self.pins(),
    {
        let byte: u8 = self.data[0];
        let pins: [Polarity; 8] = [
            Polarity::from_primitive(get_field(byte, 7, 1)),
            Polarity::from_primitive(get_field(byte, 6, 1)),
            Polarity::from_primitive(get_field(byte, 5, 1)),
            Polarity::from_primitive(get_field(byte, 4, 1)),
            Polarity::from_primitive(get_field(byte, 3, 1)),
            Polarity::from_primitive(get_field(byte, 2, 1)),
            Polarity::from_primitive(get_field(byte, 1, 1)),
            Polarity::from_primitive(get_field(byte, 0, 1)),
        ];
        assert(pins@ =~= self.pins());
        pins
    }

    /// Sets all eight pins, the first entry into bit 7.
    pub fn write_pins(&mut self, pins: [Polarity; 8])
        ensures
            final(self).pins() == pins@,
    {
        let bits: [u8; 8] = [
            pins[0].into_primitive(),
            pins[1].into_primitive(),
            pins[2].into_primitive(),
            pins[3].into_primitive(),
            pins[4].into_primitive(),
            pins[5].into_primitive(),
            pins[6].into_primitive(),
            pins[7].into_primitive(),
        ];
        self.data = [pack_msb0(bits)];
        assert forall|i: int| 0 <= i < 8 implies self.pins()[i] == pins@[i] by {
            assert(field(self.data[0], (7 - i) as u8, 1) == bits@[i]);
        }
        assert(self.pins() =~= pins@);
    }
}

impl Default for PolarityInversion {
    /// The register with every pin at `Polarity::Inverted`.
    fn default() -> (r: Self)
        ensures
            r.pins() == Seq::new(8, |i: int| Polarity::Inverted),
    {
        let mut r = PolarityInversion { data: [0] };
        let level: Polarity = Polarity::Inverted;
        r.write_pins([level, level, level, level, level, level, level, level]);
        assert(r.pins() =~= Seq::new(8, |i: int| Polarity::Inverted));
        r
    }
}

/// Whether a pin is an input or an output.
#[derive(Clone, Copy, PartialEq, Eq, Debug, Structural)]
pub enum IODirection {
    Input,
    Output,
}

impl IODirection {
    /// The bits that stand for this direction in a register.
    pub open spec fn bits(self) -> u8 {
        match self {
            IODirection::Input => 1,
            IODirection::Output => 0,
        }
    }

    /// The direction that `bits` stand for. A pattern that no direction owns reads as
    /// `Output`.
    pub open spec fn of_bits(bits: u8) -> Self {
        if bits == 1 {
            IODirection::Input
        } else {
            IODirection::Output
        }
    }

    /// The bits that stand for this direction in a register.
    pub fn into_primitive(self) -> (bits: u8)
        ensures
            bits == self.bits(),
            bits <= 1,
            Self::of_bits(bits) == self,
    {
        match self {
            IODirection::Input => 1,
            IODirection::Output => 0,
        }
    }

    /// Reads a direction from register bits; see [`Self::of_bits`].
    pub fn from_primitive(input: u8) -> (v: Self)
        ensures
            v == Self::of_bits(input),
    {
        if input == 1 {
            IODirection::Input
        } else {
            IODirection::Output
        }
    }
}

impl Default for IODirection {
    fn default() -> (v: Self)
        ensures
            v == IODirection::Input,
    {
        IODirection::Input
    }
}

/// The direction of each pin.
#[derive(Clone, Copy, PartialEq, Eq, Debug)]
pub struct Configuration {
    /// The register's raw content.
    pub data: [u8; 1],
}

impl Configuration {
    /// The register's address on the device.
    pub const ADDRESS: u8 = 0x03;

    /// The direction of each pin. The first entry is bit 7, the last bit 0.
    pub open spec fn pins(&self) -> Seq<IODirection> {
        Seq::new(8, |i: int| IODirection::of_bits(field(self.data[0], (7 - i) as u8, 1)))
    }

    /// Reads the eight pins, bit 7 first.
    pub fn read_pins(&self) -> (pins: [IODirection; 8])
        ensures
            pins@ == self.pins(),
    {
        let byte: u8 = self.data[0];
        let pins: [IODirection; 8] = [
            IODirection::from_primitive(get_field(byte, 7, 1)),
            IODirection::from_primitive(get_field(byte, 6, 1)),
            IODirection::from_primitive(get_field(byte, 5, 1)),
            IODirection::from_primitive(get_field(byte, 4, 1)),
            IODirection::from_primitive(get_field(byte, 3, 1)),
            IODirection::from_primitive(get_field(byte, 2, 1)),
            IODirection::from_primitive(get_field(byte, 1, 1)),
            IODirection::from_primitive(get_field(byte, 0, 1)),
        ];
        assert(pins@ =~= self.pins());
        pins
    }

    /// Sets all eight pins, the first entry into bit 7.
    pub fn write_pins(&mut self, pins: [IODirection; 8])
        ensures
            final(self).pins() == pins@,
    {
        let bits: [u8; 8] = [
            pins[0].into_primitive(),
            pins[1].into_primitive(),
            pins[2].into_primitive(),
            pins[3].into_primitive(),
            pins[4].into_primitive(),
            pins[5].into_primitive(),
            pins[6].into_primitive(),
            pins[7].into_primitive(),
        ];
        self.data = [pack_msb0(bits)];
        assert forall|i: int| 0 <= i < 8 implies self.pins()[i] == pins@[i] by {
            assert(field(self.data[0], (7 - i) as u8, 1) == bits@[i]);
        }
        assert(self.pins() =~= pins@);
    }
}

impl Default for Configuration {
    /// The register with every pin at `IODirection::Input`.
    fn default() -> (r: Self)
        ensures
            r.pins() == Seq::new(8, |i: int| IODirection::Input),
    {
        let mut r = Configuration { data: [0] };
        let level: IODirection = IODirection::Input;
        r.write_pins([level, level, level, level, level, level, level, level]);
        assert(r.pins() =~= Seq::new(8, |i: int| IODirection::Input));
        r
    }
}

} // verus!
