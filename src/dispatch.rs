//! The dual-shape decode protocol that resolves a response.
//!
//! A response carries no reliable discriminator between success and failure,
//! so its body is first decoded as the expected record and, only where that
//! fails, as the service's `{code, message}` envelope. A "too many requests"
//! status ends the exchange before any decode. The decisions are a function
//! from what the exchange reported last to what is to be done next; the code
//! that owns the transport performs each step and reports back.
use crate::error::ApiError;
use crate::model::ResponseCode;
use vstd::prelude::*;

verus! {

/// The status code of a "too many requests" response.
pub const TOO_MANY_REQUESTS: u16 = 429;

/// What the exchange reported last.
pub enum Event<T> {
    /// The transport failed: the request could not be sent or its body could
    /// not be read.
    TransportFailed(reqwest::Error),
    /// A response arrived with this status code.
    Responded(u16),
    /// The body was decoded as the expected record, or failed to.
    SuccessDecoded(Result<T, serde_json::Error>),
    /// The body was decoded as the error envelope, or failed to.
    EnvelopeDecoded(Result<ResponseCode, serde_json::Error>),
}

/// What is to be done next.
pub enum Step<T> {
    /// Read the whole body and decode it as the expected record.
    DecodeSuccess,
    /// Decode the same body as the error envelope.
    DecodeEnvelope,
    /// The exchange is over, with this result.
    Finish(Result<T, ApiError>),
}

/// The step that follows an event.
pub open spec fn next_step<T>(event: Event<T>) -> Step<T> {
    match event {
        Event::TransportFailed(e) => Step::Finish(Err(ApiError::ReqwestError(e))),
        Event::Responded(status) => if status == TOO_MANY_REQUESTS {
            Step::Finish(Err(ApiError::RateLimited))
        } else {
            Step::DecodeSuccess
        },
        Event::SuccessDecoded(Ok(v)) => Step::Finish(Ok(v)),
        Event::SuccessDecoded(Err(_)) => Step::DecodeEnvelope,
        Event::EnvelopeDecoded(Ok(rc)) => Step::Finish(Err(ApiError::ResponseCode(rc))),
        Event::EnvelopeDecoded(Err(e)) => Step::Finish(Err(ApiError::JsonError(e))),
    }
}

/// The result of a whole exchange that got a response with `status`, where
/// `success` is what decoding the body as the record gives and `envelope` what
/// decoding it as the error envelope gives.
pub open spec fn resolve<T>(
    status: u16,
    success: Result<T, serde_json::Error>,
    envelope: Result<ResponseCode, serde_json::Error>,
) -> Result<T, ApiError> {
    if status == TOO_MANY_REQUESTS {
        Err(ApiError::RateLimited)
    } else {
        match success {
            Ok(v) => Ok(v),
            Err(_) => match envelope {
                Ok(rc) => Err(ApiError::ResponseCode(rc)),
                Err(e) => Err(ApiError::JsonError(e)),
            },
        }
    }
}

/// Decides the next step of an exchange from the event it reported last.
pub fn dispatch<T>(event: Event<T>) -> (r: Step<T>)
    ensures
        r == next_step(event),
{
    match event {
        Event::TransportFailed(e) => Step::Finish(Err(ApiError::from(e))),
        Event::Responded(status) => {
            if status == TOO_MANY_REQUESTS {
                Step::Finish(Err(ApiError::RateLimited))
            } else {
                Step::DecodeSuccess
            }
        },
        Event::SuccessDecoded(decoded) => match decoded {
            Ok(v) => Step::Finish(Ok(v)),
            Err(_) => Step::DecodeEnvelope,
        },
        Event::EnvelopeDecoded(decoded) => match decoded {
            Ok(rc) => Step::Finish(Err(ApiError::ResponseCode(rc))),
            Err(e) => Step::Finish(Err(ApiError::from(e))),
        },
    }
}

/// Following the steps from a response to the end gives `resolve`: a
/// rate-limited response ends at once, a body that decodes as the record ends
/// after one decode, and any other body after the envelope decode.
pub proof fn lemma_steps_resolve<T>(
    status: u16,
    success: Result<T, serde_json::Error>,
    envelope: Result<ResponseCode, serde_json::Error>,
)
    ensures
        status == TOO_MANY_REQUESTS ==> next_step(Event::<T>::Responded(status)) == Step::<T>::Finish(
            resolve(status, success, envelope),
        ),
        status != TOO_MANY_REQUESTS ==> next_step(Event::<T>::Responded(status))
            == Step::<T>::DecodeSuccess,
        status != TOO_MANY_REQUESTS && success is Ok ==> next_step(Event::SuccessDecoded(success))
            == Step::Finish(resolve(status, success, envelope)),
        status != TOO_MANY_REQUESTS && success is Err ==> next_step(Event::SuccessDecoded(success))
            == Step::<T>::DecodeEnvelope && next_step(Event::<T>::EnvelopeDecoded(envelope))
            == Step::Finish(resolve(status, success, envelope)),
{
}

/// A body that decodes as the expected record is returned as it was decoded,
/// whatever the status code, except for a rate-limited response.
pub proof fn lemma_success_shape_wins<T>(
    status: u16,
    value: T,
    envelope: Result<ResponseCode, serde_json::Error>,
)
    requires
        status != TOO_MANY_REQUESTS,
    ensures
        resolve(status, Ok(value), envelope) == Ok::<T, ApiError>(value),
{
}

/// A body that does not decode as the record but decodes as the envelope
/// gives a service error with the envelope's code and message unchanged.
pub proof fn lemma_envelope_is_reported<T>(
    status: u16,
    mismatch: serde_json::Error,
    envelope: ResponseCode,
)
    requires
        status != TOO_MANY_REQUESTS,
    ensures
        resolve::<T>(status, Err(mismatch), Ok(envelope)) matches Err(ApiError::ResponseCode(rc))
            && rc.code == envelope.code && rc.message == envelope.message,
{
}

/// A body that decodes as neither shape gives a malformed-response error that
/// carries the failure of the envelope decode, never a value.
pub proof fn lemma_neither_shape_is_malformed<T>(
    status: u16,
    mismatch: serde_json::Error,
    failure: serde_json::Error,
)
    requires
        status != TOO_MANY_REQUESTS,
    ensures
        resolve::<T>(status, Err(mismatch), Err(failure)) == Err::<T, ApiError>(
            ApiError::JsonError(failure),
        ),
{
}

/// A rate-limited response gives `RateLimited` without any decode, whatever
/// the body holds, and that error is never a service error.
pub proof fn lemma_rate_limit_first<T>(
    success: Result<T, serde_json::Error>,
    envelope: Result<ResponseCode, serde_json::Error>,
)
    ensures
        next_step(Event::<T>::Responded(TOO_MANY_REQUESTS)) == Step::<T>::Finish(
            Err(ApiError::RateLimited),
        ),
        resolve(TOO_MANY_REQUESTS, success, envelope) == Err::<T, ApiError>(ApiError::RateLimited),
        !(resolve(TOO_MANY_REQUESTS, success, envelope) matches Err(ApiError::ResponseCode(_))),
{
}

} // verus!
