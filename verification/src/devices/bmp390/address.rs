//! I2C addresses of the BMP390.

use vstd::prelude::*;

verus! {

/// The address with SDO pulled low.
pub const PRIMARY_ADDRESS: u8 = 0x76;

/// The address with SDO pulled high.
pub const SECONDARY_ADDRESS: u8 = 0x77;

/// Where on the bus the device answers.
#[derive(Clone, Copy, PartialEq, Eq, Debug, Structural)]
pub enum Address {
    /// Primary device address 0x76 (SDO pulled low).
    Primary,
    /// Secondary device address 0x77 (SDO pulled high).
    Secondary,
    /// Any other seven-bit address.
    Custom(u8),
}

impl Address {
    /// The seven-bit bus address.
    pub open spec fn value(self) -> u8 {
        match self {
            Address::Primary => PRIMARY_ADDRESS,
            Address::Secondary => SECONDARY_ADDRESS,
            Address::Custom(x) => x,
        }
    }
}

impl From<Address> for u8 {
    fn from(address: Address) -> (a: u8) {
        match address {
            Address::Primary => PRIMARY_ADDRESS,
            Address::Secondary => SECONDARY_ADDRESS,
            Address::Custom(x) => x,
        }
    }
}

impl vstd::std_specs::convert::FromSpecImpl<Address> for u8 {
    open spec fn obeys_from_spec() -> bool {
        true
    }

    open spec fn from_spec(address: Address) -> u8 {
        address.value()
    }
}

} // verus!
