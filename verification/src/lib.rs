//! Register maps for two I2C devices and the telemetry framer that carries
//! their samples over a byte stream.
//!
//! [`packet`] is the framer: it wraps a packed payload in markers, a CRC-32,
//! a type tag and a length. [`devices`] holds the register layouts of the
//! BMP390 pressure sensor and the PCA9557 IO expander, [`common`] what both
//! share.

pub mod common;
pub mod devices;
pub mod packet;
