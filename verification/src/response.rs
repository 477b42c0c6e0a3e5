//! Turning a non-success response of the service into a typed error: the
//! error envelope is decoded, its message becomes a request failure, and a
//! body that does not decode becomes an invalid-response error.

use vstd::prelude::*;
use crate::error::Error;
use crate::json::decode_error_envelope;
use crate::json::error_envelope_of;

verus! {

/// The error a non-success response with this body must turn into: the
/// service's message as a request failure when the error envelope decodes,
/// the decoder's description as an invalid response when it does not.
pub open spec fn is_service_error(body: Seq<char>, e: Error) -> bool {
    match error_envelope_of(body) {
        Ok(m) => e matches Error::RequestFail(s) && s@ == m,
        Err(d) => e matches Error::InvalidResponse(s) && s@ == d,
    }
}

/// The typed error for a decoded error envelope: the service's message
/// becomes a request failure, a decode failure an invalid response.
pub fn error_from_envelope(envelope: Result<String, String>) -> (e: Error)
    ensures
        envelope matches Ok(m) ==> e == Error::RequestFail(m),
        envelope matches Err(d) ==> e == Error::InvalidResponse(d),
{
    match envelope {
        Ok(m) => Error::RequestFail(m),
        Err(d) => Error::InvalidResponse(d),
    }
}

/// Turn the body of a non-success response into the typed error it denotes.
pub fn extract_deepl_error(body: &str) -> (e: Error)
    ensures
        is_service_error(body@, e),
{
    error_from_envelope(decode_error_envelope(body))
}

} // verus!
