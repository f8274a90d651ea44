//! The poll-and-forward step between the watcher's thread and the consumer:
//! on each wake, what was found in the relay queue decides whether one
//! recompile request is sent on.

use vstd::prelude::*;

verus! {

/// How long the poll loop sleeps between two looks at the relay queue, in
/// milliseconds.
pub const POLL_PERIOD_MS: u64 = 500;

/// What a non-blocking receive on the relay queue found.
#[derive(Clone, Copy, Debug, PartialEq, Eq, Structural)]
pub enum Polled {
    /// A change signal was waiting.
    Signal,
    /// Nothing was waiting.
    Empty,
    /// The watcher side has gone; nothing will come any more.
    Closed,
}

/// Whether this wake sends one recompile request: only when a signal was
/// received.
pub fn forward_on_wake(p: Polled) -> (r: bool)
    ensures
        r == (p is Signal),
{
    match p {
        Polled::Signal => true,
        Polled::Empty => false,
        Polled::Closed => false,
    }
}

} // verus!
