//! Interface to the LSM303 digital accelerometer and magnetometer.
//!
//! The crate holds what the driver decides and computes: the register model,
//! the scale and gain that are in force, and the conversion of raw samples.
//! The bus itself is whatever implements [`transport::Transport`].

pub mod accelerometer;
pub mod common;
pub mod errors;
pub mod magnetometer;
pub mod registers;
pub mod transport;
pub mod wire;

pub use accelerometer::Accelerometer;
pub use errors::{Error, ErrorKind};
pub use magnetometer::Magnetometer;
pub use transport::Transport;
