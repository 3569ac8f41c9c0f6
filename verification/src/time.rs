use vstd::prelude::*;
use chrono::NaiveDateTime;
use crate::event::RepeatingStrategy;

verus! {

#[verifier::external_type_specification]
#[verifier::external_body]
pub struct ExNaiveDateTime(NaiveDateTime);

/// Strict bound, in whole seconds, on the difference between two in-range
/// datetimes of the date collaborator: its datetimes span about ±262000
/// years, so any difference stays far below 2^46 seconds.
pub const DIFF_BOUND: i64 = 0x4000_0000_0000;

/// Relies on chrono's Local::now and DateTime::naive_local: a sample of the
/// current wall clock in the local time zone. Nothing is promised of the
/// value; every sample is treated independently.
#[verifier::external_body]
fn date_now() -> NaiveDateTime {
    chrono::Local::now().naive_local()
}

/// Relies on chrono's NaiveDateTime::signed_duration_since and
/// TimeDelta::num_seconds: the signed difference `a - b` in whole seconds.
/// The bound holds because both datetimes lie in the collaborator's range
/// of about ±262000 years.
#[verifier::external_body]
fn date_diff_seconds(a: &NaiveDateTime, b: &NaiveDateTime) -> (r: i64)
    ensures
        -DIFF_BOUND < r < DIFF_BOUND,
{
    a.signed_duration_since(*b).num_seconds()
}

/// The calendar day of `day` combined with the time-of-day of `tod`: what
/// `date_with_time_of` returns, a function of its two arguments alone.
pub uninterp spec fn with_time_of_spec(day: NaiveDateTime, tod: NaiveDateTime) -> NaiveDateTime;

/// The datetime `minutes` minutes after `d` (None when the collaborator's
/// range is left): what `date_add_minutes` returns, a function of its
/// arguments alone.
pub uninterp spec fn add_minutes_of(d: NaiveDateTime, minutes: i64) -> Option<NaiveDateTime>;

/// The datetime `months` calendar months after `d` (None when the
/// collaborator's range is left): what `date_add_months` returns, a
/// function of its arguments alone.
pub uninterp spec fn add_months_of(d: NaiveDateTime, months: u32) -> Option<NaiveDateTime>;

/// Relies on chrono's NaiveDateTime::date, NaiveDateTime::time and
/// NaiveDate::and_time: the calendar day of `day` combined with the
/// time-of-day of `tod` — pure accessors and a constructor, so the result
/// is a function of the two arguments.
#[verifier::external_body]
fn date_with_time_of(day: &NaiveDateTime, tod: &NaiveDateTime) -> (r: NaiveDateTime)
    ensures
        r == with_time_of_spec(*day, *tod),
{
    day.date().and_time(tod.time())
}

/// Relies on chrono's TimeDelta::try_minutes and
/// NaiveDateTime::checked_add_signed: the datetime `minutes` minutes after
/// `d`, or None when the result would leave the collaborator's range —
/// checked arithmetic on plain values, a function of the arguments.
#[verifier::external_body]
fn date_add_minutes(d: &NaiveDateTime, minutes: i64) -> (r: Option<NaiveDateTime>)
    ensures
        r == add_minutes_of(*d, minutes),
{
    match chrono::TimeDelta::try_minutes(minutes) {
        Some(delta) => d.checked_add_signed(delta),
        None => None,
    }
}

/// Relies on chrono's NaiveDateTime::checked_add_months: the datetime
/// `months` calendar months after `d` (clamped to the last day of the
/// target month), or None when the result would leave the collaborator's
/// range — checked calendar arithmetic, a function of the arguments.
#[verifier::external_body]
fn date_add_months(d: &NaiveDateTime, months: u32) -> (r: Option<NaiveDateTime>)
    ensures
        r == add_months_of(*d, months),
{
    d.checked_add_months(chrono::Months::new(months))
}

/// A target instant with a derived countdown.
///
/// `finish` is the number of seconds from the epoch at which the tracker
/// was armed to the target; it is fixed until the tracker is re-armed.
/// `current` counts the seconds already spent and only grows toward
/// `finish` while the tracker is live. `is_expired` flips true once the
/// target has passed and reverts only through `add_hours`/`add_months`.
/// `is_new` is true only for a tracker armed at registration, false after
/// any rollover.
#[derive(Debug)]
pub struct Time {
    pub time: NaiveDateTime,
    pub current: i64,
    pub finish: i64,
    pub is_expired: bool,
    pub is_new: bool,
}

/// The value `update` gives a tracker when the freshly sampled distance to
/// the target is `diff` seconds: still counting while the target is ahead,
/// expired (with the counters left untouched) once it has passed.
pub open spec fn spec_updated(t: Time, diff: i64) -> Time {
    if diff > 0 {
        Time { current: (t.finish - diff) as i64, ..t }
    } else {
        Time { is_expired: true, ..t }
    }
}

impl Time {
    /// The counters stay within the range that differences of in-range
    /// datetimes can produce.
    pub open spec fn wf(self) -> bool {
        &&& -DIFF_BOUND <= self.finish <= DIFF_BOUND
        &&& -2 * (DIFF_BOUND as int) <= self.current as int <= 2 * (DIFF_BOUND as int)
    }

    /// A tracker freshly armed on `date`: counting from zero, expired
    /// exactly when the target already lay in the past.
    pub open spec fn armed_from(self, date: NaiveDateTime, is_new: bool) -> bool {
        &&& self.time == date
        &&& self.current == 0
        &&& self.is_expired == (self.finish < 0)
        &&& self.is_new == is_new
        &&& self.wf()
    }

    /// Exact constructor from an already-sampled remaining duration.
    pub fn from_remaining(date: NaiveDateTime, finish: i64, is_new: bool) -> (r: Self)
        requires
            -DIFF_BOUND <= finish <= DIFF_BOUND,
        ensures
            r == (Time { time: date, current: 0, finish, is_expired: finish < 0, is_new }),
    {
        Time { time: date, current: 0, finish, is_expired: finish < 0, is_new }
    }

    /// Arms a tracker on `date`, measuring the remaining seconds from the
    /// wall clock at the moment of the call.
    pub fn new(date: NaiveDateTime, is_new: bool) -> (r: Self)
        ensures
            r.armed_from(date, is_new),
    {
        let now = date_now();
        let finish = date_diff_seconds(&date, &now);
        Self::from_remaining(date, finish, is_new)
    }

    /// The update step on an already-sampled distance `diff` to the target.
    pub fn update_with(&mut self, diff: i64)
        requires
            old(self).wf(),
            -DIFF_BOUND < diff < DIFF_BOUND,
        ensures
            *final(self) == spec_updated(*old(self), diff),
            final(self).wf(),
    {
        if diff > 0 {
            self.current = self.finish - diff;
        } else {
            self.is_expired = true;
        }
    }

    /// Samples the wall clock and advances the countdown: the target and
    /// the fixed span never move, newness never changes, and expiry never
    /// reverts here.
    pub fn update(&mut self)
        requires
            old(self).wf(),
        ensures
            final(self).wf(),
            final(self).time == old(self).time,
            final(self).finish == old(self).finish,
            final(self).is_new == old(self).is_new,
            old(self).is_expired ==> final(self).is_expired,
            exists|diff: i64|
                -DIFF_BOUND < diff < DIFF_BOUND && *final(self) == spec_updated(
                    *old(self),
                    diff,
                ),
    {
        let now = date_now();
        let diff = date_diff_seconds(&self.time, &now);
        self.update_with(diff);
        proof {
            assert(*self == spec_updated(*old(self), diff));
        }
    }

    /// Re-arms the tracker on today's date with the original time of day,
    /// advanced by `h` hours: for some sampled `now`, the tracker is
    /// freshly armed on exactly that computed target; when the calendar
    /// arithmetic cannot produce a date, the tracker is left unchanged for
    /// this tick.
    pub fn add_hours(&mut self, h: i64)
        requires
            old(self).wf(),
            -0x100_0000 <= h <= 0x100_0000,
        ensures
            final(self).wf(),
            exists|now: NaiveDateTime|
                match add_minutes_of(
                    #[trigger] with_time_of_spec(now, old(self).time),
                    (h * 60) as i64,
                ) {
                    Some(nd) => final(self).armed_from(nd, false),
                    None => *final(self) == *old(self),
                },
    {
        let now = date_now();
        let ghost gnow = now;
        let base = date_with_time_of(&now, &self.time);
        match date_add_minutes(&base, h * 60) {
            Some(new_date) => {
                *self = Time::new(new_date, false);
            },
            None => {},
        }
        proof {
            assert(match add_minutes_of(
                with_time_of_spec(gnow, old(self).time),
                (h * 60) as i64,
            ) {
                Some(nd) => self.armed_from(nd, false),
                None => *self == *old(self),
            });
        }
    }

    /// Re-arms the tracker `m` calendar months ahead of today's date with
    /// the original time of day: for some sampled `now`, the tracker is
    /// freshly armed on exactly that computed target; when the calendar
    /// arithmetic cannot produce a date, the tracker is left unchanged for
    /// this tick.
    pub fn add_months(&mut self, m: u32)
        requires
            old(self).wf(),
        ensures
            final(self).wf(),
            exists|now: NaiveDateTime|
                match add_months_of(#[trigger] with_time_of_spec(now, old(self).time), m) {
                    Some(nd) => final(self).armed_from(nd, false),
                    None => *final(self) == *old(self),
                },
    {
        let now = date_now();
        let ghost gnow = now;
        let base = date_with_time_of(&now, &self.time);
        match date_add_months(&base, m) {
            Some(new_date) => {
                *self = Time::new(new_date, false);
            },
            None => {},
        }
        proof {
            assert(match add_months_of(with_time_of_spec(gnow, old(self).time), m) {
                Some(nd) => self.armed_from(nd, false),
                None => *self == *old(self),
            });
        }
    }
}

/// The tracker `t1` is what a rollover under `strategy` leaves of `t0`:
/// nothing for `Once`; otherwise, for some sampled `now`, freshly armed on
/// today's date with `t0`'s time of day advanced a day (`Dialy`/`Forever`,
/// 1440 minutes) or one calendar month (`Monthly`) — or unchanged when the
/// calendar arithmetic could not produce that date.
pub open spec fn rolled_over_from(t0: Time, t1: Time, strategy: RepeatingStrategy) -> bool {
    if strategy is Once {
        t1 == t0
    } else if strategy is Monthly {
        exists|now: NaiveDateTime|
            match add_months_of(#[trigger] with_time_of_spec(now, t0.time), 1u32) {
                Some(nd) => t1.armed_from(nd, false),
                None => t1 == t0,
            }
    } else {
        exists|now: NaiveDateTime|
            match add_minutes_of(#[trigger] with_time_of_spec(now, t0.time), 1440i64) {
                Some(nd) => t1.armed_from(nd, false),
                None => t1 == t0,
            }
    }
}

/// Between rollovers the elapsed count never decreases: a later clock
/// sample lies at most as far from the fixed target as an earlier one
/// (`d2 <= d1`), and the countdown only grows toward the fixed span.
/// Expiry, once reached, is not undone by further updates.
pub proof fn lemma_update_monotone(t: Time, d1: i64, d2: i64)
    requires
        t.wf(),
        0 < d2 <= d1 < DIFF_BOUND,
    ensures
        spec_updated(spec_updated(t, d1), d2).current >= spec_updated(t, d1).current,
        spec_updated(t, d1).is_expired == t.is_expired,
        spec_updated(t, d1).finish == t.finish,
{
}

/// An expired tracker stays expired under every further update; only an
/// explicit rollover through `add_hours`/`add_months` re-arms it.
pub proof fn lemma_expired_persists(t: Time, d: i64)
    requires
        t.is_expired,
    ensures
        spec_updated(t, d).is_expired,
{
}

} // verus!
