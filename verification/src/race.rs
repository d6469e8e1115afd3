//! An operation raced against a timer.
//!
//! Where a timeout is set, the caller runs each operation against a timer and
//! whichever ends first decides. The loser is dropped where it stands: an
//! operation that is abandoned halfway may leave a request partly written, and
//! nothing here mends the transport after that.

use vstd::prelude::*;
use core::time::Duration;
use std::io::Error;
use tokio::time::error::Elapsed;
use crate::failure::{expired, expiry, timed_out};

verus! {

/// Which of the two came first: the operation with its result, or the timer.
#[derive(Debug)]
pub enum Raced<R> {
    /// The operation ran to its end and gave this result.
    Finished(R),
    /// The timer ran down first and the operation was abandoned.
    Elapsed(Elapsed),
}

impl<R> Raced<R> {
    /// Whether this outcome can come of an operation that was run with the
    /// given timeout: only where a timeout is set is there a timer to run down.
    pub open spec fn answers(self, timeout: Option<Duration>) -> bool {
        self is Elapsed ==> timeout is Some
    }
}

/// What a raced operation comes to: its own result where it finished, and the
/// failure that reports the expiry where the timer came first.
pub open spec fn settled<R>(raced: Raced<Result<R, Error>>) -> Result<R, Error> {
    match raced {
        Raced::Finished(done) => done,
        Raced::Elapsed(elapsed) => Err(expiry(elapsed)),
    }
}

/// Settles a raced operation. A result that the operation gave itself, success
/// or failure, is handed on untouched; the expiry of the timer becomes a
/// failure that reports a timeout.
pub fn settle<R>(raced: Raced<Result<R, Error>>) -> (result: Result<R, Error>)
    ensures
        result == settled(raced),
        raced is Elapsed ==> (result matches Err(failure) && timed_out(failure)),
{
    match raced {
        Raced::Finished(done) => done,
        Raced::Elapsed(elapsed) => Err(expired(elapsed)),
    }
}

/// Without a timeout nothing is ever made up: the operation finished, however
/// long it took, and what it comes to is its own result. So a failure that
/// comes out, one that reports a timeout too, is the very failure that the
/// operation raised.
pub proof fn lemma_no_timeout_no_expiry<R>(
    timeout: Option<Duration>,
    raced: Raced<Result<R, Error>>,
)
    requires
        timeout is None,
        raced.answers(timeout),
    ensures
        raced matches Raced::Finished(done) && settled(raced) == done,
        settled(raced) matches Err(failure) ==> (raced matches Raced::Finished(Err(own)) && own
            == failure),
{
}

} // verus!
