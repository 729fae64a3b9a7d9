//! What a library operation can fail with.
//!
//! Every public operation returns either its typed value or one of these
//! errors; nothing is retried, swallowed or defaulted.

use vstd::prelude::*;

verus! {

#[verifier::external_type_specification]
#[verifier::external_body]
pub struct ExReqwestError(reqwest::Error);

/// An operation's failure.
#[derive(Debug)]
pub enum ClientError {
    /// The HTTP capability failed before a response body was received:
    /// connection, TLS or protocol trouble.
    Http(reqwest::Error),
    /// The response body is not valid JSON.
    Json(serde_json::Error),
    /// The response body is JSON, but not of the shape the operation
    /// expects.
    UnexpectedResponse,
}

} // verus!
