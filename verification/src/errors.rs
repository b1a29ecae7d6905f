//! The error type of the driver.

use vstd::prelude::*;

verus! {

/// What went wrong.
#[derive(Clone, Copy, Debug, PartialEq, Eq, Structural)]
pub enum ErrorKind {
    /// Error opening the I2C device.
    FailedToOpenDevice,
    /// An insufficient amount of data was read from the device.
    NotEnoughData,
    /// An error occurred receiving information from the I2C slave.
    FailedToReadRegister,
    /// An error occurred sending information to the I2C slave.
    FailedToWriteRegister,
    /// An error from the I2C device, handed on as it came.
    I2C,
}

/// A failure of the driver: its kind and, where the bus failed, the fault
/// that the bus reported.
#[derive(Debug, PartialEq, Eq)]
pub struct Error<F> {
    pub kind: ErrorKind,
    pub cause: Option<F>,
}

impl<F> Error<F> {
    /// A failure that no bus fault stands behind.
    pub open spec fn spec_from_kind(kind: ErrorKind) -> Self {
        Error { kind, cause: None }
    }

    /// A failure of `kind` that the bus fault `fault` caused.
    pub open spec fn spec_caused_by(kind: ErrorKind, fault: F) -> Self {
        Error { kind, cause: Some(fault) }
    }

    /// A failure that no bus fault stands behind.
    #[verifier::when_used_as_spec(spec_from_kind)]
    pub fn from_kind(kind: ErrorKind) -> (error: Self)
        ensures
            error == Self::spec_from_kind(kind),
    {
        Error { kind, cause: None }
    }

    /// A failure of `kind` that the bus fault `fault` caused.
    #[verifier::when_used_as_spec(spec_caused_by)]
    pub fn caused_by(kind: ErrorKind, fault: F) -> (error: Self)
        ensures
            error == Self::spec_caused_by(kind, fault),
    {
        Error { kind, cause: Some(fault) }
    }

    /// What went wrong.
    pub fn kind(&self) -> (kind: ErrorKind)
        ensures
            kind == self.kind,
    {
        self.kind
    }
}

} // verus!
