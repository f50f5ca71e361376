[package]
name = "i2c_telemetry"
version = "0.1.0"
edition = "2021"
publish = false

[dependencies]
crc32fast = "1"
bondrewd = { version = "*", features = ["derive"] }
embedded-registers = "*"
embedded-hal-async = "1"
