use vstd::prelude::*;

verus! {

/// Failures that the tracker reports to its callers.
#[derive(Debug, Clone, Copy, PartialEq, Eq, Structural)]
pub enum TrackerError {
    /// `start` while a timer is already running.
    AlreadyRunning,
    /// `stop` while no timer is running.
    NotRunning,
    /// An interval whose end is not after its start, or whose length does
    /// not fit in a signed 64-bit number of seconds.
    InvalidInterval,
    /// No ledger entry has the given id.
    NotFound,
    /// Local midnight does not resolve to exactly one instant.
    AmbiguousLocalTime,
    /// The store cannot take the write (here: its ids are used up).
    StorageUnavailable,
    /// The system clock gives no instant that the tracker can use (it reads
    /// before 1970, or absurdly far ahead).
    ClockUnavailable,
}

} // verus!
