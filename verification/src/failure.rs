//! Failures that the bridge reports.
//!
//! Every failure is a `std::io::Error`. One that the transport or the scheduler
//! raised is passed on as it came. The only failure made here is the one that
//! reports the expiry of a timer.

use vstd::prelude::*;

verus! {

/// `std::io::Error`, carried through as an opaque value.
#[verifier::external_type_specification]
#[verifier::external_body]
pub struct ExIoError(std::io::Error);

/// `tokio::time::error::Elapsed`, the token that tokio hands out when a timer
/// has run down before the operation that it was set against; opaque.
#[verifier::external_type_specification]
#[verifier::external_body]
pub struct ExElapsed(tokio::time::error::Elapsed);

/// Whether a failure reports that an operation timed out, which is to say that
/// `std::io::Error::kind` returns `std::io::ErrorKind::TimedOut` for it.
pub uninterp spec fn timed_out(failure: std::io::Error) -> bool;

/// The failure that tokio's `From<Elapsed> for std::io::Error` makes of the
/// expiry of a timer.
pub uninterp spec fn expiry(elapsed: tokio::time::error::Elapsed) -> std::io::Error;

/// Turns the expiry of a timer into the failure that reports it, by tokio's
/// `From<Elapsed> for std::io::Error`. That conversion looks at nothing but
/// its argument and makes the failure from `ErrorKind::TimedOut` alone, so the
/// failure reports a timeout.
#[verifier::external_body]
pub(crate) fn expired(elapsed: tokio::time::error::Elapsed) -> (failure: std::io::Error)
    ensures
        failure == expiry(elapsed),
        timed_out(failure),
{
    std::io::Error::from(elapsed)
}

/// A result with its success seen through the view of the value it holds.
pub open spec fn viewed<C: View>(outcome: Result<C, std::io::Error>) -> Result<
    C::V,
    std::io::Error,
> {
    match outcome {
        Ok(value) => Ok(value@),
        Err(failure) => Err(failure),
    }
}

} // verus!
