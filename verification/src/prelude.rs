//! The error taxonomy of a fetch, and the time values it carries.

use core::time::Duration;
use vstd::prelude::*;

verus! {

/// `reqwest::Error`, what the HTTP client reports when a request fails in
/// transport. Opaque here: it is carried to the caller, never inspected.
#[verifier::external_type_specification]
#[verifier::external_body]
pub struct ExTransportError(reqwest::Error);

/// `serde_json::Error`, what the JSON library reports when a body does not
/// have the expected shape. Opaque here: it is carried to the caller, never
/// inspected.
#[verifier::external_type_specification]
#[verifier::external_body]
pub struct ExShapeError(serde_json::Error);

/// The span of time that `Duration::from_secs` makes of a whole number of
/// seconds.
pub uninterp spec fn duration_from_secs(secs: u64) -> Duration;

/// `Duration::from_secs` is a function of its argument: the same number of
/// seconds always gives the same span.
pub assume_specification[ Duration::from_secs ](secs: u64) -> (d: Duration)
    ensures
        d == duration_from_secs(secs),
;

/// Why a fetch did not deliver a value. Every kind is handed to the caller as
/// it is; none is retried or replaced by a default.
#[derive(Debug)]
pub enum FetchError {
    /// The HTTP request failed to complete: the connection, a timeout, or a
    /// body that is no JSON.
    RequestError(reqwest::Error),
    /// The rate limit has been reached and the caller asked not to wait. Holds
    /// how long to wait before trying again.
    RateLimitReached(Duration),
    /// The JSON of the response does not have the shape asked for.
    ParseError(serde_json::Error),
}

impl From<reqwest::Error> for FetchError {
    fn from(value: reqwest::Error) -> (r: FetchError) {
        FetchError::RequestError(value)
    }
}

impl vstd::std_specs::convert::FromSpecImpl<reqwest::Error> for FetchError {
    open spec fn obeys_from_spec() -> bool {
        true
    }

    open spec fn from_spec(value: reqwest::Error) -> FetchError {
        FetchError::RequestError(value)
    }
}

impl From<serde_json::Error> for FetchError {
    fn from(value: serde_json::Error) -> (r: FetchError) {
        FetchError::ParseError(value)
    }
}

impl vstd::std_specs::convert::FromSpecImpl<serde_json::Error> for FetchError {
    open spec fn obeys_from_spec() -> bool {
        true
    }

    open spec fn from_spec(value: serde_json::Error) -> FetchError {
        FetchError::ParseError(value)
    }
}

impl FetchError {
    /// The error of a caller that was told to wait `secs` seconds and does
    /// not wait.
    pub fn rate_limit_reached(secs: u64) -> (r: FetchError)
        ensures
            r == FetchError::RateLimitReached(duration_from_secs(secs)),
    {
        FetchError::RateLimitReached(Duration::from_secs(secs))
    }
}

/// What a fetch delivers: the typed value, or the reason why there is none.
/// Never a stale or default value.
pub type FetchOutcome<T> = Result<T, FetchError>;

/// The outcome of a fetch whose body was read with the result `read`: what
/// was read, or a request error that holds the cause.
pub fn body_outcome<T>(read: Result<T, reqwest::Error>) -> (r: FetchOutcome<T>)
    ensures
        r == match read {
            Ok(body) => Ok::<T, FetchError>(body),
            Err(cause) => Err::<T, FetchError>(FetchError::RequestError(cause)),
        },
{
    match read {
        Ok(body) => Ok(body),
        Err(cause) => Err(FetchError::RequestError(cause)),
    }
}

/// The outcome of a fetch whose JSON was decoded with the result `decoded`:
/// the typed value, or a parse error that holds the cause.
pub fn shape_outcome<T>(decoded: Result<T, serde_json::Error>) -> (r: FetchOutcome<T>)
    ensures
        r == match decoded {
            Ok(value) => Ok::<T, FetchError>(value),
            Err(cause) => Err::<T, FetchError>(FetchError::ParseError(cause)),
        },
{
    match decoded {
        Ok(value) => Ok(value),
        Err(cause) => Err(FetchError::ParseError(cause)),
    }
}

} // verus!
