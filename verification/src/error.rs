//! The failures the service can report.

use vstd::prelude::*;

verus! {

/// Why an operation did not produce a value.
#[derive(Clone, Copy, Debug, PartialEq, Eq, Structural)]
pub enum Error {
    /// The identifier is empty, too long or not ASCII; no store was consulted.
    InvalidIdentifier,
    /// No entity is stored under the identifier.
    NotFound,
    /// The requested rendering format is not one the service offers.
    UnsupportedFormat,
    /// The store could not carry out the operation.
    StoreError,
}

impl Error {
    /// The HTTP status code that conveys this failure.
    pub open spec fn spec_status_code(self) -> u16 {
        match self {
            Error::InvalidIdentifier => 400,
            Error::NotFound => 404,
            Error::UnsupportedFormat => 404,
            Error::StoreError => 500,
        }
    }

    /// The HTTP status code that conveys this failure.
    #[verifier::when_used_as_spec(spec_status_code)]
    pub fn status_code(self) -> (code: u16)
        ensures
            code == self.spec_status_code(),
    {
        match self {
            Error::InvalidIdentifier => 400,
            Error::NotFound => 404,
            Error::UnsupportedFormat => 404,
            Error::StoreError => 500,
        }
    }
}

/// The mathematical content of a result: the view of the value it
/// carries, or the failure unchanged.
pub open spec fn viewed<T: View>(result: Result<T, Error>) -> Result<T::V, Error> {
    match result {
        Ok(value) => Ok(value@),
        Err(error) => Err(error),
    }
}

} // verus!
