//! Error taxonomy for the request pipeline.
//!
//! Every failure the pipeline can produce is one of a closed set of kinds:
//! local validation, missing credentials, transport, deserialization, or an
//! error the API itself reported under a machine-readable name.

use vstd::prelude::*;
use crate::text::str_eq;

verus! {

/// Stable sub-variants for the machine-readable error names the API is
/// known to report. Names outside the known set map to `Unknown`; the
/// original name text is preserved in [`ResponseError::name`].
#[derive(Debug, Clone, Copy, PartialEq, Eq, Structural)]
pub enum ApiErrorName {
    InvalidAccessKey,
    ExpiredAccessKey,
    JwtVerification,
    NonceUsed,
    InvalidQueryPayload,
    OutOfScope,
    Unknown,
}

/// The closed set of failure classes the pipeline distinguishes.
#[derive(Debug, Clone, Copy, PartialEq, Eq, Structural)]
pub enum ErrorKind {
    /// A locally detected invalid or conflicting parameter; no request was sent.
    LocalInvalidParameter,
    /// Credentials were required but not configured; no request was sent.
    LocalMissingCredentials,
    /// A connection, timeout, or other I/O-level fault.
    Transport,
    /// The response body matched neither the success shape nor a known error shape.
    Deserialization,
    /// An error reported by the API in its response body.
    ApiReported(ApiErrorName),
}

/// A failure as surfaced to callers: its class, a machine-readable name,
/// and a human-readable message. For API-reported errors the name and
/// message are the server's own, preserved verbatim.
#[derive(Debug)]
pub struct ResponseError {
    pub kind: ErrorKind,
    pub name: String,
    pub message: String,
}

/// The sub-variant a machine-readable error name maps to.
pub open spec fn spec_api_error_name(name: Seq<char>) -> ApiErrorName {
    if name == "invalid_access_key"@ {
        ApiErrorName::InvalidAccessKey
    } else if name == "expired_access_key"@ {
        ApiErrorName::ExpiredAccessKey
    } else if name == "jwt_verification"@ {
        ApiErrorName::JwtVerification
    } else if name == "nonce_used"@ {
        ApiErrorName::NonceUsed
    } else if name == "invalid_query_payload"@ {
        ApiErrorName::InvalidQueryPayload
    } else if name == "out_of_scope"@ {
        ApiErrorName::OutOfScope
    } else {
        ApiErrorName::Unknown
    }
}

/// Maps a server-reported error name to its stable sub-variant.
/// Unknown names map to `ApiErrorName::Unknown` rather than failing.
pub fn api_error_name_of(name: &str) -> (r: ApiErrorName)
    ensures
        r == spec_api_error_name(name@),
{
    if str_eq(name, "invalid_access_key") {
        ApiErrorName::InvalidAccessKey
    } else if str_eq(name, "expired_access_key") {
        ApiErrorName::ExpiredAccessKey
    } else if str_eq(name, "jwt_verification") {
        ApiErrorName::JwtVerification
    } else if str_eq(name, "nonce_used") {
        ApiErrorName::NonceUsed
    } else if str_eq(name, "invalid_query_payload") {
        ApiErrorName::InvalidQueryPayload
    } else if str_eq(name, "out_of_scope") {
        ApiErrorName::OutOfScope
    } else {
        ApiErrorName::Unknown
    }
}

} // verus!
