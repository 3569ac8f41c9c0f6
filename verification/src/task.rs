use vstd::prelude::*;
use crate::event::RepeatingStrategy;
use crate::time::Time;

verus! {

/// The scheduling unit: an identity, exactly one of a fixed-minute
/// interval or a date tracker, a repetition strategy, and a finished flag.
#[derive(Debug)]
pub struct Task<T> where T: PartialEq + Eq + Send + Clone {
    pub id: T,
    /// Interval in minutes, for interval tasks.
    pub interval: Option<u32>,
    /// Target time tracker, for date tasks.
    pub time: Option<Time>,
    /// Task repeating strategy.
    pub repeating_strategy: RepeatingStrategy,
    /// The task has completed and is removed on the next sweep.
    pub finished: bool,
}

impl<T> Task<T> where T: PartialEq + Eq + Send + Clone {
    /// The two scheduling modes are mutually exclusive, an interval is a
    /// positive number of minutes under an interval-compatible strategy,
    /// and an embedded tracker keeps its own invariant.
    pub open spec fn wf(self) -> bool {
        &&& ((self.interval is Some) <==> (self.time is None))
        &&& (self.interval matches Some(i) ==> 1 <= i
            && self.repeating_strategy.spec_interval_compatible())
        &&& (self.time matches Some(t) ==> t.wf())
    }
}

} // verus!
