//! Client-side classification of an error response body.
//!
//! An error response carries a message, an optional list of field-level
//! messages, and the machine-checkable auth flag; the flag decides whether
//! a client should redirect to login rather than display the message.

use vstd::prelude::*;

verus! {

/// What a client concludes from a failed call.
#[derive(Debug)]
pub enum APIError {
    /// The server rejected the request; the message explains it.
    ServerResponse(String),
    /// The request body failed validation, one message per field.
    Validation(Vec<String>),
    /// The session is missing, invalid or stale: redirect to login.
    Authorization(String),
}

/// Turn a decoded response into the caller's result: success passes
/// through, the auth flag wins over everything else, then field-level
/// messages, then the plain message.
pub fn classify_response(success: bool, message: String, errors: Option<Vec<String>>, auth_error: bool) -> (r:
    Result<(), APIError>)
    ensures
        r is Ok <==> success,
        !success && auth_error ==> (r matches Err(e) && e matches APIError::Authorization(m)
            && m@ == message@),
        !success && !auth_error ==> match errors {
            Some(list) => (r matches Err(e) && e matches APIError::Validation(v) && v == list),
            None => (r matches Err(e) && e matches APIError::ServerResponse(m) && m@ == message@),
        },
{
    if success {
        Ok(())
    } else if auth_error {
        Err(APIError::Authorization(message))
    } else {
        match errors {
            Some(list) => Err(APIError::Validation(list)),
            None => Err(APIError::ServerResponse(message)),
        }
    }
}

} // verus!
