//! The error taxonomy of the client.
use crate::model::ResponseCode;
use vstd::prelude::*;

verus! {

/// Everything a call of the client can fail with.
#[derive(Debug)]
pub enum ApiError {
    /// The credential (or another default header) is not a valid header value.
    Invalid,
    /// The service answered "too many requests".
    RateLimited,
    /// The service reported an application-level failure, verbatim.
    ResponseCode(ResponseCode),
    /// The transport failed: connection, TLS, timeout or client set-up.
    ReqwestError(reqwest::Error),
    /// The body matched neither the expected record nor the error envelope;
    /// carries the failure of the envelope decode.
    JsonError(serde_json::Error),
}

impl From<reqwest::Error> for ApiError {
    fn from(err: reqwest::Error) -> (r: Self)
        ensures
            r == ApiError::ReqwestError(err),
    {
        ApiError::ReqwestError(err)
    }
}

impl vstd::std_specs::convert::FromSpecImpl<reqwest::Error> for ApiError {
    open spec fn obeys_from_spec() -> bool {
        true
    }

    open spec fn from_spec(err: reqwest::Error) -> ApiError {
        ApiError::ReqwestError(err)
    }
}

impl From<serde_json::Error> for ApiError {
    fn from(err: serde_json::Error) -> (r: Self)
        ensures
            r == ApiError::JsonError(err),
    {
        ApiError::JsonError(err)
    }
}

impl vstd::std_specs::convert::FromSpecImpl<serde_json::Error> for ApiError {
    open spec fn obeys_from_spec() -> bool {
        true
    }

    open spec fn from_spec(err: serde_json::Error) -> ApiError {
        ApiError::JsonError(err)
    }
}

} // verus!
