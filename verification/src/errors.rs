//! The closed error taxonomy shared by every component.
//!
//! Components return semantic errors only; the single mapping to a transport
//! status code lives here, outside the component logic.

use vstd::prelude::*;

verus! {

/// An API-friendly error type.
///
/// Storage and hashing failures are folded into `Internal` so that no
/// driver-level detail can leak to a client.
#[derive(Debug)]
pub enum Error {
    /// A storage or hashing failure not attributable to caller input.
    Internal,
    /// Malformed or out-of-range input, one message per failing field.
    InvalidEntity(Vec<String>),
    /// Missing, invalid or expired token, or a principal that no longer
    /// exists.  The message never tells the caller which of those
    /// checks failed.
    Authorization(String),
    /// A referenced entity does not exist.
    UnprocessableEntity(String),
    /// A uniqueness violation: duplicate username or email, duplicate
    /// student name, or registration on a closed test.
    Conflict(String),
}

impl Error {
    /// The transport status code this error maps to.
    pub open spec fn spec_status_code(&self) -> u16 {
        match self {
            Error::Internal => 500,
            Error::InvalidEntity(_) => 422,
            Error::UnprocessableEntity(_) => 422,
            Error::Authorization(_) => 401,
            Error::Conflict(_) => 409,
        }
    }

    /// Whether a response built from this error must carry the
    /// machine-checkable "auth failure" flag, so a client can redirect to
    /// login rather than display the message.
    pub open spec fn spec_is_auth_error(&self) -> bool {
        self matches Error::Authorization(_)
    }

    pub fn status_code(&self) -> (code: u16)
        ensures
            code == self.spec_status_code(),
    {
        match self {
            Error::Internal => 500,
            Error::InvalidEntity(_) => 422,
            Error::UnprocessableEntity(_) => 422,
            Error::Authorization(_) => 401,
            Error::Conflict(_) => 409,
        }
    }

    pub fn is_auth_error(&self) -> (auth: bool)
        ensures
            auth == self.spec_is_auth_error(),
    {
        match self {
            Error::Authorization(_) => true,
            _ => false,
        }
    }

    /// The field-level messages of a validation error; empty for every
    /// other kind, mirroring the optional list in the error response body.
    pub fn messages(&self) -> (msgs: Option<&Vec<String>>)
        ensures
            match self {
                Error::InvalidEntity(errors) => msgs == Some(errors),
                _ => msgs is None,
            },
    {
        match self {
            Error::InvalidEntity(errors) => Some(errors),
            _ => None,
        }
    }
}

} // verus!
