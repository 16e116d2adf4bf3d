//! The error of a kernel call: the raw code, and nothing else.

use vstd::prelude::*;
use vstd::std_specs::convert::FromSpecImpl;
use vstd::std_specs::convert::IntoSpecImpl;

verus! {

/// `std::io::Error`, carried through as an opaque value.
#[verifier::external_type_specification]
#[verifier::external_body]
pub struct ExIoError(std::io::Error);

/// The value that `std::io::Error::from_raw_os_error` builds from an error
/// code of the operating system.
pub uninterp spec fn os_error(code: i32) -> std::io::Error;

/// Calls `std::io::Error::from_raw_os_error`. The contract gives the result
/// its name and claims nothing else of it: the same code always builds the
/// same error value.
#[verifier::external_body]
fn io_error_from_raw_os_error(code: i32) -> (r: std::io::Error)
    ensures
        r == os_error(code),
{
    std::io::Error::from_raw_os_error(code)
}

/// An error code directly from the kernel.
///
/// The code is held as it came. What a code means is for the caller to look
/// up.
#[derive(Clone, Copy, PartialEq, Eq, Debug, Structural)]
pub struct Error(pub i32);

/// Represents a result from a kernel call that might fail.
pub type Result<T> = core::result::Result<T, Error>;

impl Error {
    /// Wraps a raw error code.
    pub fn new(raw: i32) -> (r: Error)
        ensures
            r == Error(raw),
    {
        Error(raw)
    }

    /// The error of the standard library for the same code of the operating
    /// system.
    pub fn into_std_io_error(self) -> (r: std::io::Error)
        ensures
            r == os_error(self.0),
    {
        io_error_from_raw_os_error(self.0)
    }
}

impl From<i32> for Error {
    fn from(value: i32) -> (r: Error) {
        Error::new(value)
    }
}

impl FromSpecImpl<i32> for Error {
    open spec fn obeys_from_spec() -> bool {
        true
    }

    open spec fn from_spec(value: i32) -> Error {
        Error(value)
    }
}

impl Into<std::io::Error> for Error {
    fn into(self) -> (r: std::io::Error) {
        self.into_std_io_error()
    }
}

impl IntoSpecImpl<std::io::Error> for Error {
    open spec fn obeys_into_spec() -> bool {
        true
    }

    open spec fn into_spec(self) -> std::io::Error {
        os_error(self.0)
    }
}

} // verus!
