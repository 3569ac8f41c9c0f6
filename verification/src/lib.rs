mod event;
mod handler;
mod task;
mod time;

use vstd::prelude::*;
use chrono::NaiveDateTime;

pub use event::{Event, RepeatingStrategy, SchedulerEvent};
pub use handler::SchedulerHandler;
pub use task::Task;
pub use time::{
    add_minutes_of, add_months_of, rolled_over_from, spec_updated, with_time_of_spec, Time,
    DIFF_BOUND,
};

verus! {

/// Some tracker an `update` call can turn `t0` into: one fresh clock
/// sample decides the whole step.
pub open spec fn updated_tracker(t0: Time, t1: Time) -> bool {
    exists|d: i64| -DIFF_BOUND < d < DIFF_BOUND && t1 == spec_updated(t0, d)
}

/// The tasks that survive a sweep: exactly those not yet finished, in
/// their original order.
pub open spec fn live_tasks<T: PartialEq + Eq + Send + Clone>(s: Seq<Task<T>>) -> Seq<Task<T>> {
    s.filter(|t: Task<T>| !t.finished)
}

/// `ev` is a `Tick` carrying the progress of tracker `t` for (a clone of)
/// identity `id`.
pub open spec fn tick_event_for<T: PartialEq + Eq + Send + Sync + Clone>(
    ev: Option<SchedulerEvent<T>>,
    id: T,
    t: Time,
) -> bool {
    ev matches Some(SchedulerEvent::Tick(e)) && cloned(id, e.id) && e.current == t.current as u32
        && e.len == t.finish as u32
}

/// `ev` is a `FinishCycle` carrying the progress of tracker `t` for (a
/// clone of) identity `id`.
pub open spec fn finish_cycle_event_for<T: PartialEq + Eq + Send + Sync + Clone>(
    ev: Option<SchedulerEvent<T>>,
    id: T,
    t: Time,
) -> bool {
    ev matches Some(SchedulerEvent::FinishCycle(e)) && cloned(id, e.id) && e.current == t.current
        as u32 && e.len == t.finish as u32
}

/// The per-tick decision for an interval task with period `interval`:
/// nothing on the scheduler's very first tick; at each multiple of the
/// period either the terminal `Finish` (strategy `Once`) or a
/// `FinishCycle`; a plain progress `Tick` in between. Everything but the
/// finished flag stays as it was.
pub open spec fn interval_task_outcome<T: PartialEq + Eq + Send + Sync + Clone>(
    t0: Task<T>,
    t1: Task<T>,
    minutes: u32,
    interval: u32,
    ev: Option<SchedulerEvent<T>>,
) -> bool {
    &&& t1.id == t0.id
    &&& t1.interval == t0.interval
    &&& t1.time == t0.time
    &&& t1.repeating_strategy == t0.repeating_strategy
    &&& if minutes == 0 {
        ev is None && t1.finished == t0.finished
    } else {
        let div = minutes % interval;
        if div == 0 {
            if t0.repeating_strategy is Once {
                &&& t1.finished
                &&& ev matches Some(SchedulerEvent::Finish(c)) && cloned(t0.id, c)
            } else {
                &&& t1.finished == t0.finished
                &&& ev matches Some(SchedulerEvent::FinishCycle(e)) && cloned(t0.id, e.id)
                    && e.current == div && e.len == interval
            }
        } else {
            &&& t1.finished == t0.finished
            &&& ev matches Some(SchedulerEvent::Tick(e)) && cloned(t0.id, e.id) && e.current == div
                && e.len == interval
        }
    }
}

/// The per-tick decision for a date task whose tracker was `ot` before the
/// call. One clock sample updates the tracker; from the updated tracker the
/// step is exact: a `Once` task finishes when expired and is silent before
/// that; a repeating task rolls over on expiry (re-arming unless the
/// calendar arithmetic failed), reporting the first boundary after
/// registration as a `Tick` and every later one as a `FinishCycle`, and
/// otherwise just reports progress, never on the scheduler's first tick.
pub open spec fn date_task_outcome<T: PartialEq + Eq + Send + Sync + Clone>(
    t0: Task<T>,
    ot: Time,
    t1: Task<T>,
    minutes: u32,
    ev: Option<SchedulerEvent<T>>,
) -> bool {
    &&& t1.id == t0.id
    &&& t1.interval == t0.interval
    &&& t1.repeating_strategy == t0.repeating_strategy
    &&& t1.time matches Some(t) && if t0.repeating_strategy is Once {
        &&& updated_tracker(ot, t)
        &&& t.time == ot.time
        &&& t.finish == ot.finish
        &&& t.is_new == ot.is_new
        &&& (ot.is_expired ==> t.is_expired)
        &&& (t.is_expired ==> t1.finished && (ev matches Some(SchedulerEvent::Finish(c)) && cloned(
            t0.id,
            c,
        )))
        &&& (!t.is_expired ==> t1.finished == t0.finished && ev is None)
    } else {
        &&& t1.finished == t0.finished
        &&& exists|t_upd: Time|
            #[trigger] updated_tracker(ot, t_upd) && date_step_outcome(
                t0.id,
                ot,
                t,
                t_upd,
                minutes,
                ev,
                t0.repeating_strategy,
            )
    }
}

/// The decision a repeating date task takes once its tracker has been
/// updated to `t_upd`: on expiry it rolls over — re-armed, under
/// `strategy`, on today's date with the original time of day a day or a
/// month ahead, or unchanged when the calendar arithmetic failed — and
/// reports the first boundary after registration as a `Tick`, every later
/// one as a `FinishCycle`; while live it just reports progress, and never
/// on the scheduler's first tick.
pub open spec fn date_step_outcome<T: PartialEq + Eq + Send + Sync + Clone>(
    id: T,
    ot: Time,
    t: Time,
    t_upd: Time,
    minutes: u32,
    ev: Option<SchedulerEvent<T>>,
    strategy: RepeatingStrategy,
) -> bool {
    if t_upd.is_expired {
        &&& rolled_over_from(t_upd, t, strategy)
        &&& if ot.is_new {
            if minutes != 0 {
                tick_event_for(ev, id, t)
            } else {
                ev is None
            }
        } else {
            finish_cycle_event_for(ev, id, t)
        }
    } else {
        &&& t == t_upd
        &&& if minutes != 0 {
            tick_event_for(ev, id, t)
        } else {
            ev is None
        }
    }
}

/// The per-tick decision for one task of either mode: the interval outcome
/// when an interval is set, the date outcome when a tracker is set, and no
/// change and no event for a task with neither.
pub open spec fn task_outcome<T: PartialEq + Eq + Send + Sync + Clone>(
    t0: Task<T>,
    t1: Task<T>,
    minutes: u32,
    ev: Option<SchedulerEvent<T>>,
) -> bool {
    &&& (t0.interval matches Some(interval) ==> interval_task_outcome(t0, t1, minutes, interval, ev))
    &&& (t0.time matches Some(ot) ==> date_task_outcome(t0, ot, t1, minutes, ev))
    &&& (t0.interval is None && t0.time is None ==> t1 == t0 && ev is None)
}

/// The first `n` tasks of `cur` each arose from the task at the same place
/// in `orig` by one evaluation at minute `minutes`, each with some emitted
/// event.
pub open spec fn evaluated_prefix<T: PartialEq + Eq + Send + Sync + Clone>(
    orig: Seq<Task<T>>,
    cur: Seq<Task<T>>,
    n: int,
    minutes: u32,
) -> bool
    decreases n,
{
    n <= 0 || (evaluated_prefix(orig, cur, n - 1, minutes) && exists|ev: Option<
        SchedulerEvent<T>,
    >| #[trigger] task_outcome(orig[n - 1], cur[n - 1], minutes, ev))
}

/// An evaluated prefix reads off the tasks alone: replacing the rest of
/// the sequence leaves it evaluated.
proof fn lemma_evaluated_prefix_frame<T: PartialEq + Eq + Send + Sync + Clone>(
    orig: Seq<Task<T>>,
    prev: Seq<Task<T>>,
    cur: Seq<Task<T>>,
    n: int,
    minutes: u32,
)
    requires
        evaluated_prefix(orig, prev, n, minutes),
        forall|j: int| 0 <= j < n ==> cur[j] == prev[j],
    ensures
        evaluated_prefix(orig, cur, n, minutes),
    decreases n,
{
    if n > 0 {
        lemma_evaluated_prefix_frame(orig, prev, cur, n - 1, minutes);
        let w = choose|ev: Option<SchedulerEvent<T>>|
            #[trigger] task_outcome(orig[n - 1], prev[n - 1], minutes, ev);
        assert(cur[n - 1] == prev[n - 1]);
        assert(task_outcome(orig[n - 1], cur[n - 1], minutes, w));
    }
}

/// Evaluating one more task extends an evaluated prefix by one.
proof fn lemma_evaluated_prefix_step<T: PartialEq + Eq + Send + Sync + Clone>(
    orig: Seq<Task<T>>,
    prev: Seq<Task<T>>,
    cur: Seq<Task<T>>,
    n: int,
    minutes: u32,
    ev: Option<SchedulerEvent<T>>,
)
    requires
        evaluated_prefix(orig, prev, n, minutes),
        0 <= n < orig.len(),
        prev.len() == orig.len(),
        cur.len() == orig.len(),
        forall|j: int| 0 <= j < n ==> cur[j] == prev[j],
        task_outcome(orig[n], cur[n], minutes, ev),
    ensures
        evaluated_prefix(orig, cur, n + 1, minutes),
{
    lemma_evaluated_prefix_frame(orig, prev, cur, n, minutes);
    assert(task_outcome(orig[(n + 1) - 1], cur[(n + 1) - 1], minutes, ev));
}

/// Evaluates an interval task for minute `minutes`: reports whether the
/// task was interval-based, and the event to hand to the handler, if any.
pub fn interval_worker<T>(task: &mut Task<T>, minutes: u32) -> (r: (
    bool,
    Option<SchedulerEvent<T>>,
)) where T: PartialEq + Eq + Send + Sync + Clone
    requires
        old(task).wf(),
    ensures
        final(task).wf(),
        r.0 == (old(task).interval is Some),
        old(task).interval is None ==> *final(task) == *old(task) && r.1 is None,
        old(task).interval matches Some(interval) ==> interval_task_outcome(
            *old(task),
            *final(task),
            minutes,
            interval,
            r.1,
        ),
{
    match task.interval {
        Some(interval) => {
            if minutes != 0 {
                let div = minutes % interval;
                if div == 0 {
                    match task.repeating_strategy {
                        RepeatingStrategy::Once => {
                            let ev = SchedulerEvent::Finish(task.id.clone());
                            task.finished = true;
                            (true, Some(ev))
                        },
                        _ => {
                            let event = Event::new(task.id.clone(), div, interval);
                            (true, Some(SchedulerEvent::FinishCycle(event)))
                        },
                    }
                } else {
                    let event = Event::new(task.id.clone(), div, interval);
                    (true, Some(SchedulerEvent::Tick(event)))
                }
            } else {
                (true, None)
            }
        },
        None => (false, None),
    }
}

/// Rolls a repeating tracker over to its next cycle: re-armed on today's
/// date with the original time of day one day ahead for `Dialy`/`Forever`
/// and one calendar month ahead for `Monthly` (unchanged when the calendar
/// arithmetic fails), and untouched for `Once`.
pub fn add_time(time: &mut Time, repeating_strategy: RepeatingStrategy)
    requires
        old(time).wf(),
    ensures
        final(time).wf(),
        rolled_over_from(*old(time), *final(time), repeating_strategy),
{
    match repeating_strategy {
        RepeatingStrategy::Dialy | RepeatingStrategy::Forever => {
            time.add_hours(24);
        },
        RepeatingStrategy::Monthly => {
            time.add_months(1);
        },
        _ => {},
    }
}

/// Evaluates a date task for minute `minutes`: updates its tracker from
/// the wall clock, rolls it over when a repeating cycle has expired, and
/// returns the event to hand to the handler, if any.
pub fn date_worker<T>(task: &mut Task<T>, minutes: u32) -> (ev: Option<
    SchedulerEvent<T>,
>) where T: PartialEq + Eq + Send + Sync + Clone
    requires
        old(task).wf(),
    ensures
        final(task).wf(),
        old(task).time is None ==> *final(task) == *old(task) && ev is None,
        old(task).time matches Some(ot) ==> date_task_outcome(
            *old(task),
            ot,
            *final(task),
            minutes,
            ev,
        ),
{
    let mut time = match task.time.take() {
        Some(t) => t,
        None => {
            return None;
        },
    };
    time.update();
    let ghost t_upd = time;
    let mut result: Option<SchedulerEvent<T>> = None;
    let mut need_tick = false;
    match task.repeating_strategy {
        RepeatingStrategy::Once => {
            if time.is_expired {
                result = Some(SchedulerEvent::Finish(task.id.clone()));
                task.finished = true;
            }
        },
        _ => {
            if time.is_expired {
                if time.is_new {
                    add_time(&mut time, task.repeating_strategy);
                    need_tick = true;
                } else {
                    add_time(&mut time, task.repeating_strategy);
                    let event = Event::new(
                        task.id.clone(),
                        #[verifier::truncate] (time.current as u32),
                        #[verifier::truncate] (time.finish as u32),
                    );
                    result = Some(SchedulerEvent::FinishCycle(event));
                }
            } else {
                need_tick = true;
            }
        },
    }
    if minutes != 0 && need_tick {
        let event = Event::new(
            task.id.clone(),
            #[verifier::truncate] (time.current as u32),
            #[verifier::truncate] (time.finish as u32),
        );
        result = Some(SchedulerEvent::Tick(event));
    }
    task.time = Some(time);
    proof {
        assert(updated_tracker(old(task).time->Some_0, t_upd));
    }
    result
}

/// The minute counter for the next sweep: it grows by one each minute and
/// wraps back to 1 (not 0, so the first-tick suppression is never
/// re-entered) once it has passed a full day.
pub fn next_minute(minutes: u32) -> (r: u32)
    ensures
        minutes > 1440 ==> r == 1,
        minutes <= 1440 ==> r == minutes + 1,
{
    if minutes > 24 * 60 {
        1
    } else {
        minutes + 1
    }
}

/// Owns the ordered task collection and carries out registration, the
/// per-minute evaluation sweep, and the removal of finished tasks. The
/// sixty-second loop that drives it lives with the caller, which locks the
/// scheduler for the span of one sweep.
#[derive(Debug)]
pub struct Scheduler<T> where T: PartialEq + Eq + Send + Clone {
    tasks: Vec<Task<T>>,
}

impl<T> View for Scheduler<T> where T: PartialEq + Eq + Send + Clone {
    type V = Seq<Task<T>>;

    closed spec fn view(&self) -> Seq<Task<T>> {
        self.tasks@
    }
}

impl<T> Scheduler<T> where T: PartialEq + Eq + Send + Sync + Clone {
    /// Every registered task keeps the task invariant.
    pub open spec fn wf(self) -> bool {
        forall|i: int| 0 <= i < self@.len() ==> (#[trigger] self@[i]).wf()
    }

    /// An empty scheduler.
    pub fn new() -> (r: Self)
        ensures
            r@ == Seq::<Task<T>>::empty(),
            r.wf(),
    {
        Scheduler { tasks: Vec::new() }
    }

    /// How many tasks are currently registered.
    pub fn task_count(&self) -> (r: usize)
        ensures
            r == self@.len(),
    {
        self.tasks.len()
    }

    /// Registers a task that completes a cycle every `interval` minutes.
    /// Registration succeeds exactly for the interval-compatible
    /// strategies (`Once`, `Dialy`, `Forever`); a `Monthly` interval task
    /// is rejected without touching the collection.
    pub fn add_interval_task(
        &mut self,
        id: T,
        interval: u32,
        repeating_strategy: RepeatingStrategy,
    ) -> (r: bool)
        requires
            old(self).wf(),
            interval >= 1,
        ensures
            final(self).wf(),
            r == repeating_strategy.spec_interval_compatible(),
            r ==> final(self)@ == old(self)@.push(
                (Task {
                    id,
                    interval: Some(interval),
                    time: None,
                    repeating_strategy,
                    finished: false,
                }),
            ),
            !r ==> final(self)@ == old(self)@,
    {
        if repeating_strategy.is_interval_compatible() {
            let task = Task {
                id,
                interval: Some(interval),
                time: None,
                repeating_strategy,
                finished: false,
            };
            let ghost gtask = task;
            self.tasks.push(task);
            proof {
                assert forall|i: int| 0 <= i < self@.len() implies (#[trigger] self@[i]).wf() by {
                    if i < old(self)@.len() {
                        assert(self@[i] == old(self)@[i]);
                    } else {
                        assert(self@[i] == gtask);
                    }
                }
            }
            true
        } else {
            false
        }
    }

    /// Registers a date task around an already-armed tracker. A `Once`
    /// task whose tracker is already expired is rejected without touching
    /// the collection; every other combination is accepted.
    pub fn add_timed_task(&mut self, id: T, time: Time, repeating_strategy: RepeatingStrategy) -> (
        r: bool)
        requires
            old(self).wf(),
            time.wf(),
        ensures
            final(self).wf(),
            r == !(repeating_strategy is Once && time.is_expired),
            r ==> final(self)@ == old(self)@.push(
                (Task { id, interval: None, time: Some(time), repeating_strategy, finished: false
                }),
            ),
            !r ==> final(self)@ == old(self)@,
    {
        let expired = time.is_expired;
        let reject = match repeating_strategy {
            RepeatingStrategy::Once => expired,
            _ => false,
        };
        if reject {
            false
        } else {
            let task = Task {
                id,
                interval: None,
                time: Some(time),
                repeating_strategy,
                finished: false,
            };
            let ghost gtask = task;
            self.tasks.push(task);
            proof {
                assert forall|i: int| 0 <= i < self@.len() implies (#[trigger] self@[i]).wf() by {
                    if i < old(self)@.len() {
                        assert(self@[i] == old(self)@[i]);
                    } else {
                        assert(self@[i] == gtask);
                    }
                }
            }
            true
        }
    }

    /// Registers a task targeting the wall-clock instant `date`, arming a
    /// fresh tracker at the moment of the call. A `Once` task whose target
    /// already lies in the past is rejected and the collection is left
    /// unchanged; a repeating task is always accepted.
    pub fn add_date_task(&mut self, id: T, date: NaiveDateTime, repeating_strategy:
        RepeatingStrategy) -> (r: bool)
        requires
            old(self).wf(),
        ensures
            final(self).wf(),
            !(repeating_strategy is Once) ==> r,
            !r ==> repeating_strategy is Once && final(self)@ == old(self)@,
            r ==> exists|t: Time|
                #[trigger] t.armed_from(date, true) && (repeating_strategy is Once
                    ==> !t.is_expired) && final(self)@ == old(self)@.push(
                    (Task { id, interval: None, time: Some(t), repeating_strategy, finished: false
                    }),
                ),
    {
        let time = Time::new(date, true);
        let ghost t_witness = time;
        let r = self.add_timed_task(id, time, repeating_strategy);
        proof {
            if r {
                assert(t_witness.armed_from(date, true));
            }
        }
        r
    }

    /// Evaluates the task at `index` for minute `minutes` and returns the
    /// event to deliver for it, if any. Every other task is untouched.
    pub fn evaluate_at(&mut self, index: usize, minutes: u32) -> (ev: Option<SchedulerEvent<T>>)
        requires
            old(self).wf(),
            index < old(self)@.len(),
        ensures
            final(self).wf(),
            final(self)@.len() == old(self)@.len(),
            forall|j: int|
                0 <= j < old(self)@.len() && j != index ==> final(self)@[j] == old(self)@[j],
            task_outcome(old(self)@[index as int], final(self)@[index as int], minutes, ev),
    {
        let mut task = self.tasks.remove(index);
        let (was_interval, ev_interval) = interval_worker(&mut task, minutes);
        let ev = if was_interval {
            ev_interval
        } else {
            date_worker(&mut task, minutes)
        };
        self.tasks.insert(index, task);
        proof {
            assert(self.tasks@ =~= old(self)@.update(index as int, self.tasks@[index as int]));
        }
        ev
    }

    /// Removes every finished task; the survivors keep their order.
    pub fn sweep_finished(&mut self)
        requires
            old(self).wf(),
        ensures
            final(self).wf(),
            final(self)@ == live_tasks(old(self)@),
    {
        let ghost orig = self.tasks@;
        let mut kept: Vec<Task<T>> = Vec::new();
        let ghost mut taken: int = 0;
        proof {
            assert(orig.take(0) =~= Seq::<Task<T>>::empty());
            assert forall|i: int| 0 <= i < orig.len() implies (#[trigger] orig[i]).wf() by {
                assert(orig[i] == self@[i]);
                assert(self@[i].wf());
            }
        }
        while self.tasks.len() > 0
            invariant
                0 <= taken <= orig.len(),
                self.tasks@ == orig.skip(taken),
                kept@ == live_tasks(orig.take(taken)),
                forall|i: int| 0 <= i < orig.len() ==> (#[trigger] orig[i]).wf(),
                forall|i: int| 0 <= i < kept@.len() ==> (#[trigger] kept@[i]).wf(),
            decreases self.tasks@.len(),
        {
            let t = self.tasks.remove(0);
            let ghost gt = t;
            proof {
                assert(gt == orig[taken]);
                assert(self.tasks@ =~= orig.skip(taken + 1));
                assert(orig.take(taken + 1) =~= orig.take(taken).push(orig[taken]));
                orig.take(taken).lemma_filter_push(gt, |t: Task<T>| !t.finished);
            }
            if !t.finished {
                kept.push(t);
            }
            proof {
                taken = taken + 1;
            }
        }
        proof {
            assert(orig.take(taken) =~= orig);
        }
        self.tasks = kept;
    }

    /// One full sweep for minute `minutes`: evaluates every task in
    /// collection order exactly once, hands each emitted event to the
    /// handler before moving to the next task, and finally keeps exactly
    /// the tasks the evaluation left unfinished, in their original order.
    #[verifier::loop_isolation(false)]
    pub fn run_sweep<H: SchedulerHandler<T>>(&mut self, minutes: u32, handler: &H)
        requires
            old(self).wf(),
        ensures
            final(self).wf(),
            forall|j: int| 0 <= j < final(self)@.len() ==> !(#[trigger] final(self)@[j]).finished,
            exists|s_eval: Seq<Task<T>>|
                {
                    &&& s_eval.len() == old(self)@.len()
                    &&& evaluated_prefix(old(self)@, s_eval, s_eval.len() as int, minutes)
                    &&& final(self)@ == #[trigger] live_tasks(s_eval)
                },
    {
        let mut index: usize = 0;
        while index < self.tasks.len()
            invariant
                self.wf(),
                index <= self@.len(),
                self@.len() == old(self)@.len(),
                forall|j: int| index <= j < self@.len() ==> self@[j] == old(self)@[j],
                evaluated_prefix(old(self)@, self@, index as int, minutes),
            decreases self@.len() - index,
        {
            let ghost prev = self@;
            let ghost n = index as int;
            let ev = self.evaluate_at(index, minutes);
            proof {
                assert(prev[n] == old(self)@[n]);
                lemma_evaluated_prefix_step(old(self)@, prev, self@, n, minutes, ev);
            }
            match ev {
                Some(e) => handler.tick(e),
                None => {},
            }
            index = index + 1;
        }
        let ghost pre_sweep = self@;
        self.sweep_finished();
        proof {
            assert forall|j: int| 0 <= j < self@.len() implies !(#[trigger] self@[j]).finished by {
                pre_sweep.lemma_filter_pred(|t: Task<T>| !t.finished, j);
            }
            assert(pre_sweep.len() == old(self)@.len() && evaluated_prefix(
                old(self)@,
                pre_sweep,
                pre_sweep.len() as int,
                minutes,
            ) && self@ == live_tasks(pre_sweep));
        }
    }
}

/// The `current` values an interval task reports — `m % interval` at
/// minute `m`, by `interval_task_outcome` — climb by exactly one from one
/// minute to the next, and return to zero exactly at the minutes that are
/// whole multiples of `interval`; so a cycle completes exactly every
/// `interval` minutes and the ticks in between are strictly increasing.
pub proof fn lemma_interval_tick_progress(interval: u32, m: u32)
    requires
        1 <= interval,
    ensures
        ((m as int) % (interval as int) == 0) <==> (exists|k: int|
            0 <= k && m as int == #[trigger] (k * (interval as int))),
        (((m as int) + 1) % (interval as int) == 0) <==> ((m as int) % (interval as int)
            == interval - 1),
        ((m as int) % (interval as int) < interval - 1) ==> ((m as int) + 1) % (interval as int)
            == (m as int) % (interval as int) + 1,
{
    let i = interval as int;
    let x = m as int;
    vstd::arithmetic::div_mod::lemma_fundamental_div_mod(x, i);
    vstd::arithmetic::div_mod::lemma_mod_division_less_than_divisor(x, i);
    vstd::arithmetic::div_mod::lemma_div_pos_is_pos(x, i);
    let q = x / i;
    let r = x % i;
    if r == 0 {
        assert(x == q * i) by (nonlinear_arith)
            requires
                x == i * q + r,
                r == 0,
        ;
        assert(0 <= q && x == q * i);
    }
    if exists|k: int| 0 <= k && x == #[trigger] (k * (interval as int)) {
        let k = choose|k: int| 0 <= k && x == #[trigger] (k * (interval as int));
        vstd::arithmetic::div_mod::lemma_fundamental_div_mod_converse_mod(x, i, k, 0);
    }
    if r + 1 < i {
        assert(x + 1 == q * i + (r + 1)) by (nonlinear_arith)
            requires
                x == i * q + r,
        ;
        vstd::arithmetic::div_mod::lemma_fundamental_div_mod_converse_mod(x + 1, i, q, r + 1);
    } else {
        assert(x + 1 == (q + 1) * i + 0) by (nonlinear_arith)
            requires
                x == i * q + r,
                r == i - 1,
        ;
        vstd::arithmetic::div_mod::lemma_fundamental_div_mod_converse_mod(x + 1, i, q + 1, 0);
    }
}

/// A `Once` date task whose tracker is expired once updated — in
/// particular any whose target had already passed before the call — is
/// reported with exactly one terminal `Finish` and nothing else this tick:
/// the evaluation marks the task finished, and any sweep over a collection
/// holding the finished task drops it, so no later sweep evaluates it
/// again.
pub proof fn lemma_once_finish_removed<T: PartialEq + Eq + Send + Sync + Clone>(
    t0: Task<T>,
    ot: Time,
    t1: Task<T>,
    minutes: u32,
    ev: Option<SchedulerEvent<T>>,
    s: Seq<Task<T>>,
)
    requires
        t0.repeating_strategy is Once,
        date_task_outcome(t0, ot, t1, minutes, ev),
        t1.time is Some,
        ot.is_expired || t1.time->Some_0.is_expired,
    ensures
        t1.finished,
        ev matches Some(SchedulerEvent::Finish(c)) && cloned(t0.id, c),
        !live_tasks(s).contains(t1),
{
    assert forall|j: int| 0 <= j < live_tasks(s).len() implies live_tasks(s)[j] != t1 by {
        s.lemma_filter_pred(|t: Task<T>| !t.finished, j);
    }
}

/// On the scheduler's very first tick (minute counter 0) no progress
/// `Tick` is delivered for any task: an interval task is silent, and a
/// date task can only report its terminal `Finish` or a completed cycle's
/// `FinishCycle`.
pub proof fn lemma_first_tick_silent<T: PartialEq + Eq + Send + Sync + Clone>(
    t0: Task<T>,
    t1: Task<T>,
    ev: Option<SchedulerEvent<T>>,
)
    requires
        task_outcome(t0, t1, 0, ev),
    ensures
        !(ev matches Some(SchedulerEvent::Tick(e))),
        !(ev matches Some(SchedulerEvent::Expired(c))),
        t0.interval is Some ==> ev is None,
        ev is Some ==> (ev matches Some(SchedulerEvent::Finish(c)) || ev matches Some(
            SchedulerEvent::FinishCycle(e),
        )),
{
    if t0.time is Some && !(t0.repeating_strategy is Once) {
        let ot = t0.time->Some_0;
        let t = t1.time->Some_0;
        let t_upd = choose|t_upd: Time|
            #[trigger] updated_tracker(ot, t_upd) && date_step_outcome(
                t0.id,
                ot,
                t,
                t_upd,
                0,
                ev,
                t0.repeating_strategy,
            );
    }
}

/// A repeating date task never terminates: its evaluation never yields a
/// `Finish` or `Expired` event and never marks the task finished; an
/// evaluation that meets a tracker already expired and already rolled over
/// at least once yields exactly one `FinishCycle`; and every evaluation of
/// an expired tracker attempts the strategy's own rollover — a day ahead
/// for `Dialy`/`Forever`, a calendar month for `Monthly` — so each cycle
/// of such a task is reported once, indefinitely.
pub proof fn lemma_repeating_date_cycle<T: PartialEq + Eq + Send + Sync + Clone>(
    t0: Task<T>,
    ot: Time,
    t1: Task<T>,
    minutes: u32,
    ev: Option<SchedulerEvent<T>>,
)
    requires
        !(t0.repeating_strategy is Once),
        t0.time == Some(ot),
        date_task_outcome(t0, ot, t1, minutes, ev),
    ensures
        t1.finished == t0.finished,
        !(ev matches Some(SchedulerEvent::Finish(c))),
        !(ev matches Some(SchedulerEvent::Expired(c))),
        ot.is_expired && !ot.is_new ==> (ev matches Some(SchedulerEvent::FinishCycle(e)) && cloned(
            t0.id,
            e.id,
        )),
        minutes != 0 ==> ev is Some,
        ot.is_expired ==> (t1.time matches Some(t) && exists|t_upd: Time|
            #[trigger] updated_tracker(ot, t_upd) && rolled_over_from(
                t_upd,
                t,
                t0.repeating_strategy,
            )),
{
    let t = t1.time->Some_0;
    let t_upd = choose|t_upd: Time|
        #[trigger] updated_tracker(ot, t_upd) && date_step_outcome(
            t0.id,
            ot,
            t,
            t_upd,
            minutes,
            ev,
            t0.repeating_strategy,
        );
    let d = choose|d: i64| -DIFF_BOUND < d < DIFF_BOUND && t_upd == spec_updated(ot, d);
    if ot.is_expired {
        assert(t_upd.is_expired);
    }
}

} // verus!
