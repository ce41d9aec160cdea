//! Numeric error codes surfaced to JSON-RPC clients of a MIDDS store.
use vstd::prelude::*;

verus! {

/// Numeric error codes surfaced to JSON-RPC clients.
#[derive(Debug, Clone, Copy, PartialEq, Eq, Structural)]
pub enum Error {
    /// The runtime call returned an error.
    RuntimeError,
}

/// The wire code of each error.
pub open spec fn error_code(e: Error) -> i32 {
    match e {
        Error::RuntimeError => 1,
    }
}

impl Error {
    /// The numeric code clients receive for this error.
    pub fn code(&self) -> (c: i32)
        ensures
            c == error_code(*self),
    {
        match self {
            Error::RuntimeError => 1,
        }
    }
}

impl From<Error> for i32 {
    fn from(e: Error) -> (c: i32) {
        e.code()
    }
}

impl vstd::std_specs::convert::FromSpecImpl<Error> for i32 {
    open spec fn obeys_from_spec() -> bool {
        true
    }

    open spec fn from_spec(e: Error) -> i32 {
        error_code(e)
    }
}

} // verus!
