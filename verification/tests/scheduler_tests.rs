use std::cell::RefCell;

use chrono::NaiveDate;
use chrono::NaiveDateTime;
use scheduler::{
    next_minute, RepeatingStrategy, Scheduler, SchedulerEvent, SchedulerHandler, Time,
};

fn past_date() -> NaiveDateTime {
    NaiveDate::from_ymd_opt(2000, 1, 1).unwrap().and_hms_opt(12, 0, 0).unwrap()
}

fn future_date() -> NaiveDateTime {
    NaiveDate::from_ymd_opt(9999, 1, 1).unwrap().and_hms_opt(12, 0, 0).unwrap()
}

#[test]
fn test_interval_current() {
    let minutes: u32 = 11;
    let interval: u32 = 3;
    let d = minutes % interval;
    println!("{}", d);
}

#[test]
fn test_interval_1() {
    let result: u32 = 1 % 1;
    println!("{}", result);
}

#[test]
fn add_interval_task_accepts_compatible_strategies() {
    let mut s: Scheduler<u32> = Scheduler::new();
    assert!(s.add_interval_task(1, 5, RepeatingStrategy::Once));
    assert!(s.add_interval_task(2, 5, RepeatingStrategy::Dialy));
    assert!(s.add_interval_task(3, 5, RepeatingStrategy::Forever));
    assert_eq!(s.task_count(), 3);
}

#[test]
fn add_interval_task_rejects_monthly() {
    let mut s: Scheduler<u32> = Scheduler::new();
    assert!(!s.add_interval_task(1, 5, RepeatingStrategy::Monthly));
    assert_eq!(s.task_count(), 0);
}

#[test]
fn add_date_task_rejects_expired_once() {
    // Registering a `Once` date task whose target is already past returns
    // false and leaves the collection unchanged.
    let mut s: Scheduler<u32> = Scheduler::new();
    assert!(!s.add_date_task(1, past_date(), RepeatingStrategy::Once));
    assert_eq!(s.task_count(), 0);
}

#[test]
fn add_date_task_accepts_future_once() {
    let mut s: Scheduler<u32> = Scheduler::new();
    assert!(s.add_date_task(1, future_date(), RepeatingStrategy::Once));
    assert_eq!(s.task_count(), 1);
}

#[test]
fn add_date_task_accepts_expired_repeating() {
    // A repeating date task may be registered with a past target; only
    // `Once` is rejected when expired.
    let mut s: Scheduler<u32> = Scheduler::new();
    assert!(s.add_date_task(1, past_date(), RepeatingStrategy::Monthly));
    assert!(s.add_date_task(2, past_date(), RepeatingStrategy::Dialy));
    assert_eq!(s.task_count(), 2);
}

#[test]
fn add_timed_task_gate_is_exact() {
    let mut s: Scheduler<u32> = Scheduler::new();
    let expired = Time::from_remaining(past_date(), -5, true);
    assert!(expired.is_expired);
    assert!(!s.add_timed_task(1, expired, RepeatingStrategy::Once));
    assert_eq!(s.task_count(), 0);
    let live = Time::from_remaining(future_date(), 90, true);
    assert!(!live.is_expired);
    assert!(s.add_timed_task(1, live, RepeatingStrategy::Once));
    assert_eq!(s.task_count(), 1);
    let expired2 = Time::from_remaining(past_date(), -5, true);
    assert!(s.add_timed_task(2, expired2, RepeatingStrategy::Forever));
    assert_eq!(s.task_count(), 2);
}

#[test]
fn interval_task_tick_cycle_sequence() {
    // Scenario: interval task, interval = 3, strategy Dialy, from minute 1:
    // Tick{1,3}, Tick{2,3}, FinishCycle{0,3}, Tick{1,3}.
    let mut s: Scheduler<String> = Scheduler::new();
    assert!(s.add_interval_task("A".to_string(), 3, RepeatingStrategy::Dialy));
    let expect = [
        (1u32, false),
        (2, false),
        (0, true),
        (1, false),
    ];
    let mut minutes: u32 = 1;
    for (want_current, want_cycle) in expect {
        let ev = s.evaluate_at(0, minutes);
        match ev {
            Some(SchedulerEvent::Tick(e)) => {
                assert!(!want_cycle);
                assert_eq!(e.id, "A".to_string());
                assert_eq!(e.current, want_current);
                assert_eq!(e.len, 3);
            }
            Some(SchedulerEvent::FinishCycle(e)) => {
                assert!(want_cycle);
                assert_eq!(e.id, "A".to_string());
                assert_eq!(e.current, want_current);
                assert_eq!(e.len, 3);
            }
            other => panic!("unexpected event: {:?}", other),
        }
        minutes = next_minute(minutes);
    }
    assert_eq!(s.task_count(), 1);
}

#[test]
fn interval_task_silent_on_first_tick() {
    let mut s: Scheduler<u32> = Scheduler::new();
    assert!(s.add_interval_task(1, 3, RepeatingStrategy::Dialy));
    let ev = s.evaluate_at(0, 0);
    assert!(ev.is_none());
}

#[test]
fn interval_once_finishes_and_is_swept() {
    let mut s: Scheduler<u32> = Scheduler::new();
    assert!(s.add_interval_task(7, 2, RepeatingStrategy::Once));
    let first = s.evaluate_at(0, 1);
    assert!(matches!(first, Some(SchedulerEvent::Tick(_))));
    let ev = s.evaluate_at(0, 2);
    match ev {
        Some(SchedulerEvent::Finish(id)) => assert_eq!(id, 7),
        other => panic!("unexpected event: {:?}", other),
    }
    s.sweep_finished();
    assert_eq!(s.task_count(), 0);
}

#[test]
fn once_date_task_finishes_when_target_passes() {
    // A live `Once` tracker whose stored target lies in the past expires on
    // the next update: exactly one Finish, then the sweep removes the task.
    let mut s: Scheduler<u32> = Scheduler::new();
    let t = Time::from_remaining(past_date(), 90, true);
    assert!(s.add_timed_task(9, t, RepeatingStrategy::Once));
    let ev = s.evaluate_at(0, 1);
    match ev {
        Some(SchedulerEvent::Finish(id)) => assert_eq!(id, 9),
        other => panic!("unexpected event: {:?}", other),
    }
    s.sweep_finished();
    assert_eq!(s.task_count(), 0);
}

#[test]
fn once_date_task_ticks_silently_before_expiry() {
    // While the target is still ahead a Once date task emits nothing.
    let mut s: Scheduler<u32> = Scheduler::new();
    let t = Time::from_remaining(future_date(), 90, true);
    assert!(s.add_timed_task(9, t, RepeatingStrategy::Once));
    let ev = s.evaluate_at(0, 1);
    assert!(ev.is_none());
    assert_eq!(s.task_count(), 1);
}

#[test]
fn daily_date_task_emits_finish_cycle_never_finish() {
    // An expired, already-rolled-over Dialy tracker yields FinishCycle and
    // the task stays registered; after the rollover the tracker is live
    // again and yields plain Ticks.
    let mut s: Scheduler<u32> = Scheduler::new();
    let t = Time::from_remaining(past_date(), -5, false);
    assert!(s.add_timed_task(4, t, RepeatingStrategy::Dialy));
    let ev = s.evaluate_at(0, 1);
    match ev {
        Some(SchedulerEvent::FinishCycle(e)) => assert_eq!(e.id, 4),
        other => panic!("unexpected event: {:?}", other),
    }
    assert_eq!(s.task_count(), 1);
    let ev2 = s.evaluate_at(0, 2);
    match ev2 {
        Some(SchedulerEvent::Tick(e)) => assert_eq!(e.id, 4),
        other => panic!("unexpected event: {:?}", other),
    }
    s.sweep_finished();
    assert_eq!(s.task_count(), 1);
}

#[test]
fn first_expiry_of_new_tracker_is_a_tick() {
    // The first cycle boundary after registration is reported as a Tick,
    // not a FinishCycle.
    let mut s: Scheduler<u32> = Scheduler::new();
    let t = Time::from_remaining(past_date(), -5, true);
    assert!(s.add_timed_task(4, t, RepeatingStrategy::Dialy));
    let ev = s.evaluate_at(0, 1);
    match ev {
        Some(SchedulerEvent::Tick(e)) => assert_eq!(e.id, 4),
        other => panic!("unexpected event: {:?}", other),
    }
}

#[test]
fn strategy_names() {
    assert_eq!(RepeatingStrategy::Once.to_string(), "once");
    assert_eq!(RepeatingStrategy::Dialy.to_string(), "dialy");
    assert_eq!(RepeatingStrategy::Forever.to_string(), "forever");
    assert_eq!(RepeatingStrategy::Monthly.to_string(), "monthly");
}

#[test]
fn next_minute_wraps_after_a_day() {
    assert_eq!(next_minute(0), 1);
    assert_eq!(next_minute(1439), 1440);
    assert_eq!(next_minute(1440), 1441);
    assert_eq!(next_minute(1441), 1);
}

struct Recorder {
    events: RefCell<Vec<SchedulerEvent<String>>>,
}

impl SchedulerHandler<String> for Recorder {
    fn tick(&self, event: SchedulerEvent<String>) {
        self.events.borrow_mut().push(event);
    }
}

#[test]
fn run_sweep_delivers_in_order_and_prunes() {
    let mut s: Scheduler<String> = Scheduler::new();
    assert!(s.add_interval_task("a".to_string(), 2, RepeatingStrategy::Once));
    assert!(s.add_interval_task("b".to_string(), 3, RepeatingStrategy::Forever));
    let handler = Recorder { events: RefCell::new(Vec::new()) };
    s.run_sweep(2, &handler);
    let events = handler.events.into_inner();
    assert_eq!(events.len(), 2);
    match &events[0] {
        SchedulerEvent::Finish(id) => assert_eq!(id, "a"),
        other => panic!("unexpected event: {:?}", other),
    }
    match &events[1] {
        SchedulerEvent::Tick(e) => {
            assert_eq!(e.id, "b");
            assert_eq!(e.current, 2);
            assert_eq!(e.len, 3);
        }
        other => panic!("unexpected event: {:?}", other),
    }
    // The finished Once task is gone; the repeating one survives.
    assert_eq!(s.task_count(), 1);
}
