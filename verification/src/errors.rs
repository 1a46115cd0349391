//! The closed error taxonomy of the request processor.

use vstd::prelude::*;

verus! {

/// A classified failure of one request. Every error is terminal for the
/// request that raised it: a handler either returns a fully formed response
/// or one of these, never both.
#[derive(Debug, Clone, Copy, PartialEq, Eq)]
pub enum RequestError {
    /// Malformed input, a decode failure, or an internal invariant violation.
    /// Carries a short diagnostic that never includes secret material.
    Debug(&'static str),
    /// No algorithm in the request's `pubKeyCredParams` is supported.
    NoSupportedAlgorithm,
    /// Too many incorrect PIN attempts; verification is refused outright.
    PINLocked,
    /// The presented PIN record belongs to a superseded PIN generation.
    PINOutdated,
    /// The claimed PIN did not match the stored PIN hash.
    IncorrectPIN,
}

/// Shorthand for failing a request with a diagnostic message.
pub(crate) fn debug<T>(msg: &'static str) -> (r: Result<T, RequestError>)
    ensures
        r == Err::<T, RequestError>(RequestError::Debug(msg)),
{
    Err(RequestError::Debug(msg))
}

} // verus!
