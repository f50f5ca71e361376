//! I2C addresses of the PCA9557.

use vstd::prelude::*;

verus! {

/// The address with A0, A1 and A2 tied to ground.
pub const PRIMARY_ADDRESS: u8 = 0x18;

/// Where on the bus the device answers.
#[derive(Clone, Copy, PartialEq, Eq, Debug, Structural)]
pub enum Address {
    /// Primary device address 0x18 (A0, A1, A2 connected to GND).
    Primary,
    /// Any other seven-bit address.
    Custom(u8),
}

impl Address {
    /// The seven-bit bus address.
    pub open spec fn value(self) -> u8 {
        match self {
            Address::Primary => PRIMARY_ADDRESS,
            Address::Custom(x) => x,
        }
    }
}

impl From<Address> for u8 {
    fn from(address: Address) -> (a: u8) {
        match address {
            Address::Primary => PRIMARY_ADDRESS,
            Address::Custom(x) => x,
        }
    }
}

impl vstd::std_specs::convert::FromSpecImpl<Address> for u8 {
    open spec fn obeys_from_spec() -> bool {
        true
    }

    open spec fn from_spec(address: Address) -> u8 {
        address.value()
    }
}

} // verus!
