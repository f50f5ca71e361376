//! The PCA9557 eight-bit IO expander.
//!
//! The registers hold pin 7 in their first entry. The setters here take the
//! pins the other way round, pin 0 first, so that an entry's index is the
//! number of its pin on the chip.

pub mod address;
pub mod enums;
pub mod registers;

use vstd::prelude::*;
use crate::common::enums::LogicLevel;
use self::registers::{Configuration, IODirection, OutputPort, Polarity, PolarityInversion};

verus! {

/// `pins` read from the last entry to the first.
pub open spec fn reversed_pins<T>(pins: Seq<T>) -> Seq<T> {
    Seq::new(pins.len(), |i: int| pins[pins.len() - 1 - i])
}

/// The eight entries in reverse order.
pub fn reversed<T: Copy>(pins: [T; 8]) -> (out: [T; 8])
    ensures
        out@ == reversed_pins(pins@),
{
    let out: [T; 8] = [
        pins[7],
        pins[6],
        pins[5],
        pins[4],
        pins[3],
        pins[2],
        pins[1],
        pins[0],
    ];
    assert(out@ =~= reversed_pins(pins@));
    out
}

/// Puts the levels `input`, pin 0 first, into the output register.
pub fn set_output_port(reg: &mut OutputPort, input: [LogicLevel; 8])
    ensures
        final(reg).pins() == reversed_pins(input@),
{
    reg.write_pins(reversed(input));
}

/// Puts the polarities `input`, pin 0 first, into the inversion register.
pub fn set_polarity(reg: &mut PolarityInversion, input: [Polarity; 8])
    ensures
        final(reg).pins() == reversed_pins(input@),
{
    reg.write_pins(reversed(input));
}

/// Puts the directions `input`, pin 0 first, into the configuration
/// register.
pub fn set_configuration(reg: &mut Configuration, input: [IODirection; 8])
    ensures
        final(reg).pins() == reversed_pins(input@),
{
    reg.write_pins(reversed(input));
}

} // verus!
