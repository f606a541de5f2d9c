//! The deadline on one exchange: a handler that has not finished within
//! sixty seconds of its start fails the exchange instead of answering it.
use vstd::prelude::*;

verus! {

/// How long a handler may run, in seconds.
pub const DEADLINE_SECS: u64 = 60;

/// How long a handler may run, in milliseconds.
pub const DEADLINE_MILLIS: u64 = 60_000;

/// The exchange failed: its handler did not finish within the deadline.
#[derive(Debug, Clone, Copy, PartialEq, Eq)]
pub struct Elapsed;

/// Where an exchange stands when its handler and its timer are looked at.
#[derive(Debug, PartialEq, Eq)]
pub enum Progress<T> {
    /// The exchange is over: the handler's result, or the deadline's error.
    Ready(Result<T, Elapsed>),
    /// Neither has happened yet: wait for the handler or the timer.
    Pending,
}

/// How an exchange settles `elapsed_millis` after its start, given the
/// handler's result if it has one. A finished handler wins, even when the
/// deadline has passed too; the result of one that finishes later is
/// dropped.
pub open spec fn settled<T>(elapsed_millis: u64, finished: Option<T>) -> Progress<T> {
    match finished {
        Some(v) => Progress::Ready(Ok(v)),
        None => if elapsed_millis >= DEADLINE_MILLIS {
            Progress::Ready(Err(Elapsed))
        } else {
            Progress::Pending
        },
    }
}

/// Decides the exchange from the time since the handler started and the
/// handler's result, if it has finished.
pub fn settle<T>(elapsed_millis: u64, finished: Option<T>) -> (r: Progress<T>)
    ensures
        r == settled(elapsed_millis, finished),
{
    match finished {
        Some(v) => Progress::Ready(Ok(v)),
        None => {
            if elapsed_millis >= DEADLINE_MILLIS {
                Progress::Ready(Err(Elapsed))
            } else {
                Progress::Pending
            }
        },
    }
}

/// No exchange waits past its deadline: from the deadline on, an exchange
/// is over whatever the handler has done, and one whose handler has not
/// finished fails with `Elapsed`. Before the deadline an unfinished
/// exchange never fails.
pub proof fn lemma_deadline_ends_waiting<T>(elapsed_millis: u64, finished: Option<T>)
    ensures
        elapsed_millis >= DEADLINE_MILLIS ==> settled(elapsed_millis, finished) is Ready,
        elapsed_millis >= DEADLINE_MILLIS && finished is None ==> settled(elapsed_millis, finished)
            == Progress::<T>::Ready(Err(Elapsed)),
        elapsed_millis < DEADLINE_MILLIS && finished is None ==> settled(elapsed_millis, finished)
            is Pending,
        DEADLINE_MILLIS == DEADLINE_SECS * 1000,
{
}

} // verus!
