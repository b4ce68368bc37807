//! Failure classification for the register accessor.
//!
//! A missing per-CPU device node means the kernel-side support is not
//! loaded; it is detected before any open is attempted and reported apart
//! from ordinary operating-system failures, which are passed through with
//! their original detail.

use vstd::prelude::*;

verus! {

/// Declares `std::io::Error` so contracts can carry the operating system's
/// own failure detail; the library never looks inside such a value.
#[verifier::external_type_specification]
#[verifier::external_body]
pub struct ExIoError(std::io::Error);

/// What can go wrong while constructing an accessor or touching a register.
#[derive(Debug)]
pub enum MsrError {
    /// The operating system failed an open, seek, read, or write; the
    /// underlying detail is preserved for diagnosis.
    IoError(std::io::Error),
    /// The per-CPU device node does not exist: the kernel module that
    /// exposes registers as device nodes is not loaded.
    MissingKernelModule,
    /// Safety net for conditions that fit neither classification.
    UnknownError,
}

impl From<std::io::Error> for MsrError {
    fn from(value: std::io::Error) -> Self {
        MsrError::IoError(value)
    }
}

impl vstd::std_specs::convert::FromSpecImpl<std::io::Error> for MsrError {
    open spec fn obeys_from_spec() -> bool {
        true
    }

    open spec fn from_spec(value: std::io::Error) -> Self {
        MsrError::IoError(value)
    }
}

} // verus!
