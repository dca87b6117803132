//! The configuration of a run, fixed at start-up.

use vstd::prelude::*;

verus! {

/// Points per batch in the standard configuration.
pub const STANDARD_BATCH_SIZE: u64 = 100_000;

/// Steps of the recurrence per point in the standard configuration.
pub const STANDARD_ITERATION_LIMIT: u64 = 1_000;

/// Worker threads in the standard configuration.
pub const STANDARD_WORKERS: usize = 6;

/// What a run is started with. Nothing of it changes while the run lasts.
#[derive(Clone, Copy, Debug, PartialEq, Eq)]
pub struct Config {
    /// Points that one sampling call evaluates.
    pub batch_size: u64,
    /// Most steps of the recurrence before a point counts as inside the set.
    pub iteration_limit: u64,
    /// Number of worker threads.
    pub workers: usize,
}

impl Config {
    /// The standard configuration: six workers, batches of a hundred thousand
    /// points, a thousand steps per point.
    pub fn standard() -> (c: Config)
        ensures
            c.batch_size == STANDARD_BATCH_SIZE,
            c.iteration_limit == STANDARD_ITERATION_LIMIT,
            c.workers == STANDARD_WORKERS,
    {
        Config {
            batch_size: STANDARD_BATCH_SIZE,
            iteration_limit: STANDARD_ITERATION_LIMIT,
            workers: STANDARD_WORKERS,
        }
    }
}

} // verus!
