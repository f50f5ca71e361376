//! What the device maps and the framer share.

pub mod bits;
pub mod bytes;
pub mod enums;
