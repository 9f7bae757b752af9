//! The one way in which starting a server can fail.

use vstd::prelude::*;
use vstd::std_specs::convert::FromSpecImpl;

verus! {

/// `std::io::Error`, carried through as an opaque value.
#[verifier::external_type_specification]
#[verifier::external_body]
pub struct ExIoError(std::io::Error);

/// Failure to start a server.
#[derive(Debug)]
pub enum StaticDirectoryServerError {
    /// Binding the listener, or reading back the address it was bound to, failed.
    Io(std::io::Error),
}

impl From<std::io::Error> for StaticDirectoryServerError {
    fn from(source: std::io::Error) -> (error: Self) {
        StaticDirectoryServerError::Io(source)
    }
}

impl FromSpecImpl<std::io::Error> for StaticDirectoryServerError {
    open spec fn obeys_from_spec() -> bool {
        true
    }

    open spec fn from_spec(source: std::io::Error) -> Self {
        StaticDirectoryServerError::Io(source)
    }
}

} // verus!
