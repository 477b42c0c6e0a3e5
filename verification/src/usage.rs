//! The usage endpoint: decoding the account's character quota and use.

use vstd::prelude::*;
use crate::error::Error;
use crate::json::decode_usage;
use crate::json::usage_of;
use crate::response::extract_deepl_error;
use crate::response::is_service_error;

verus! {

/// A decoded response of the usage endpoint: characters translated so far in
/// the billing period, and the period's character limit.
#[derive(Debug, Clone, Copy, PartialEq, Eq, Structural)]
pub struct UsageResponse {
    pub character_count: u64,
    pub character_limit: u64,
}

/// Decode what the usage endpoint answered: the typed result for a success
/// response whose payload decodes, an invalid-response error for a success
/// response whose payload does not, and the service's error for a non-success
/// response.
pub fn handle_usage_response(success: bool, body: &str) -> (r: Result<UsageResponse, Error>)
    ensures
        success ==> (match usage_of(body@) {
            Ok(cl) => r == Ok::<UsageResponse, Error>(
                UsageResponse { character_count: cl.0, character_limit: cl.1 },
            ),
            Err(d) => r matches Err(e) && (e matches Error::InvalidResponse(m) && m@ == d),
        }),
        !success ==> (r matches Err(e) && is_service_error(body@, e)),
{
    if success {
        match decode_usage(body) {
            Ok((count, limit)) => Ok(
                UsageResponse { character_count: count, character_limit: limit },
            ),
            Err(d) => Err(Error::InvalidResponse(d)),
        }
    } else {
        Err(extract_deepl_error(body))
    }
}

} // verus!
