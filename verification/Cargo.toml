[package]
name = "lsm303"
version = "0.1.0"
edition = "2021"
publish = false

[dependencies]
byteorder = "1"
dimensioned = "0.8"
error-chain = { version = "0.12", default-features = false }
i2cdev = "0.6"
