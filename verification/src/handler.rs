use vstd::prelude::*;
use crate::event::SchedulerEvent;

verus! {

/// The capability through which the scheduler surfaces events. The caller
/// implements it; the scheduler delivers events strictly one at a time, in
/// collection order, and never interprets the handler's behaviour.
pub trait SchedulerHandler<T> where T: PartialEq + Eq + Send + Sync + Clone {
    fn tick(&self, event: SchedulerEvent<T>);
}

} // verus!
