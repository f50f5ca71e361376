//! The values that the PCA9557's registers and bus address take.

pub use super::address::Address;
pub use super::registers::{IODirection, Polarity};
