//! Register maps of the supported devices.

pub mod bmp390;
pub mod pca9557;
