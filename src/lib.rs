//! A probe of reader/writer contention on a shared lock: reader tasks hold
//! the shared lock for a delay, a writer task asks for the exclusive lock
//! now and then, and each reports how long it waited.
use vstd::prelude::*;

pub mod cycle;
pub mod delay;
pub mod holders;
pub mod report;

use crate::delay::{DelayPolicy, DelayRange};

verus! {

/// Readers spawned where the machine does not report its parallelism.
pub const FALLBACK_READERS: usize = 4;

/// A reader's delay is drawn from `[READER_LOW_MS, READER_HIGH_MS)`.
pub const READER_LOW_MS: u64 = 10;

pub const READER_HIGH_MS: u64 = 1000;

/// A writer's rest is drawn from `[WRITER_LOW_MS, WRITER_HIGH_MS)`.
pub const WRITER_LOW_MS: u64 = 500;

pub const WRITER_HIGH_MS: u64 = 5000;

/// The hold of a reader with a fixed delay.
pub const FIXED_HOLD_MS: u64 = 333;

/// Number of reader tasks: the reported parallelism of the machine, or a
/// fixed fallback when that is unknown.
pub fn reader_count(parallelism: Option<usize>) -> (r: usize)
    ensures
        r == match parallelism {
            Some(n) => n,
            None => FALLBACK_READERS,
        },
{
    match parallelism {
        Some(n) => n,
        None => FALLBACK_READERS,
    }
}

/// All tasks: the readers and one writer; `None` where the count does not fit.
pub fn task_count(readers: usize) -> (r: Option<usize>)
    ensures
        r is Some <==> readers < usize::MAX,
        r matches Some(n) ==> n == readers + 1,
{
    readers.checked_add(1)
}

/// The delays of a reader: uniform over its range.
pub fn reader_delays() -> (r: DelayPolicy)
    ensures
        r matches DelayPolicy::Uniform(d) && d.low_spec() == READER_LOW_MS
            && d.high_spec() == READER_HIGH_MS,
{
    match DelayRange::new(READER_LOW_MS, READER_HIGH_MS) {
        Some(d) => DelayPolicy::Uniform(d),
        None => DelayPolicy::Fixed(READER_LOW_MS),
    }
}

/// The rests of the writer: uniform over its range.
pub fn writer_delays() -> (r: DelayPolicy)
    ensures
        r matches DelayPolicy::Uniform(d) && d.low_spec() == WRITER_LOW_MS
            && d.high_spec() == WRITER_HIGH_MS,
{
    match DelayRange::new(WRITER_LOW_MS, WRITER_HIGH_MS) {
        Some(d) => DelayPolicy::Uniform(d),
        None => DelayPolicy::Fixed(WRITER_LOW_MS),
    }
}

/// The delays of a reader that always holds the lock for the same time.
pub fn fixed_reader_delays() -> (r: DelayPolicy)
    ensures
        r == DelayPolicy::Fixed(FIXED_HOLD_MS),
{
    DelayPolicy::Fixed(FIXED_HOLD_MS)
}

} // verus!
