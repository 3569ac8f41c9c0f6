use vstd::prelude::*;

verus! {

/// How a task repeats once its timer or interval elapses.
///
/// `Dialy` and `Forever` behave identically for interval tasks (both loop
/// indefinitely); `Once` terminates after the first completion; `Monthly`
/// is meaningful for date tasks only and advances the target by one
/// calendar month per cycle.
#[derive(Clone, Copy, Debug, PartialEq, Eq, Structural)]
pub enum RepeatingStrategy {
    Once,
    Dialy,
    Forever,
    Monthly,
}

impl RepeatingStrategy {
    /// Interval tasks accept every strategy except `Monthly`, which has no
    /// fixed-minute meaning.
    pub open spec fn spec_interval_compatible(self) -> bool {
        !(self is Monthly)
    }

    /// Executable test for `spec_interval_compatible`.
    pub fn is_interval_compatible(self) -> (r: bool)
        ensures
            r == self.spec_interval_compatible(),
    {
        match self {
            RepeatingStrategy::Once => true,
            RepeatingStrategy::Dialy => true,
            RepeatingStrategy::Forever => true,
            RepeatingStrategy::Monthly => false,
        }
    }

    /// The lower-case name of the strategy, its display form.
    pub fn to_string(&self) -> (r: String)
        ensures
            self is Once ==> r@ == "once"@,
            self is Dialy ==> r@ == "dialy"@,
            self is Forever ==> r@ == "forever"@,
            self is Monthly ==> r@ == "monthly"@,
    {
        match self {
            RepeatingStrategy::Once => "once".to_owned(),
            RepeatingStrategy::Dialy => "dialy".to_owned(),
            RepeatingStrategy::Forever => "forever".to_owned(),
            RepeatingStrategy::Monthly => "monthly".to_owned(),
        }
    }
}

/// A progress snapshot for one task: `current` elapsed units out of `len`
/// (minutes for interval tasks, seconds for date tasks).
#[derive(Clone, Debug)]
pub struct Event<T> where T: PartialEq + Eq + Send + Clone {
    pub id: T,
    pub current: u32,
    pub len: u32,
}

impl<T> Event<T> where T: PartialEq + Eq + Send + Sync + Clone {
    pub fn new(id: T, current: u32, len: u32) -> (r: Self)
        ensures
            r.id == id,
            r.current == current,
            r.len == len,
    {
        Self { id, current, len }
    }
}

/// What the scheduler reports to the handler about one task on one tick.
#[derive(Clone, Debug)]
pub enum SchedulerEvent<T> where T: PartialEq + Eq + Send + Sync + Clone {
    /// The task's time is expired and the task is not repeatable.
    Expired(T),
    /// Periodic progress, emitted up to once per minute.
    Tick(Event<T>),
    /// Terminal completion of a non-repeatable task.
    Finish(T),
    /// One repetition cycle completed; the task re-arms and continues.
    FinishCycle(Event<T>),
}

} // verus!
