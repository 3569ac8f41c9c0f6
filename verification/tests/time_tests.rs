use chrono::NaiveDate;
use chrono::NaiveDateTime;
use scheduler::Time;

fn past_date() -> NaiveDateTime {
    NaiveDate::from_ymd_opt(2000, 1, 1).unwrap().and_hms_opt(12, 0, 0).unwrap()
}

fn future_date() -> NaiveDateTime {
    NaiveDate::from_ymd_opt(9999, 1, 1).unwrap().and_hms_opt(12, 0, 0).unwrap()
}

#[test]
fn new_tracker_on_past_target_is_expired() {
    let t = Time::new(past_date(), true);
    assert!(t.is_expired);
    assert!(t.finish < 0);
    assert_eq!(t.current, 0);
    assert!(t.is_new);
}

#[test]
fn new_tracker_on_future_target_is_live() {
    let t = Time::new(future_date(), true);
    assert!(!t.is_expired);
    assert!(t.finish > 0);
    assert_eq!(t.current, 0);
}

#[test]
fn from_remaining_is_exact() {
    let t = Time::from_remaining(future_date(), 90, true);
    assert_eq!(t.current, 0);
    assert_eq!(t.finish, 90);
    assert!(!t.is_expired);
    assert!(t.is_new);
    let e = Time::from_remaining(past_date(), -1, false);
    assert!(e.is_expired);
    assert!(!e.is_new);
}

#[test]
fn update_with_counts_toward_finish() {
    let mut t = Time::from_remaining(future_date(), 90, true);
    t.update_with(60);
    assert_eq!(t.current, 30);
    assert!(!t.is_expired);
    t.update_with(30);
    assert_eq!(t.current, 60);
    assert!(!t.is_expired);
    t.update_with(0);
    assert!(t.is_expired);
    // The counters are left as they were once expiry is reached.
    assert_eq!(t.current, 60);
    assert_eq!(t.finish, 90);
}

#[test]
fn update_elapsed_is_non_decreasing() {
    let mut t = Time::new(future_date(), true);
    t.update();
    let c1 = t.current;
    t.update();
    let c2 = t.current;
    assert!(c1 <= c2);
    assert!(!t.is_expired);
}

#[test]
fn expired_tracker_stays_expired_under_updates() {
    let mut t = Time::new(past_date(), true);
    assert!(t.is_expired);
    t.update();
    assert!(t.is_expired);
    t.update();
    assert!(t.is_expired);
}

#[test]
fn add_hours_rearms_the_tracker() {
    let mut t = Time::new(past_date(), true);
    assert!(t.is_expired);
    t.add_hours(24);
    // Re-armed on today's date with the original time of day plus a day:
    // the new target lies ahead, so the tracker is live and no longer new.
    assert!(!t.is_expired);
    assert_eq!(t.current, 0);
    assert!(!t.is_new);
    assert!(t.finish > 0);
}

#[test]
fn add_months_rearms_the_tracker() {
    let mut t = Time::new(past_date(), true);
    assert!(t.is_expired);
    t.add_months(1);
    assert!(!t.is_expired);
    assert_eq!(t.current, 0);
    assert!(!t.is_new);
    assert!(t.finish > 0);
}
