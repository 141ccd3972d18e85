//! The reminder command: when a reminder is due, and how long to wait for it.
//!
//! A day is counted in days since a fixed day, a time of day in nanoseconds
//! since midnight. Finding a date and a time in the text of the command, and
//! reading the clock, are the caller's part.

use vstd::prelude::*;

verus! {

/// The nanoseconds of one day.
pub const NANOS_PER_DAY: u64 = 86_400_000_000_000;

/// A point in time: a day and the nanoseconds since that day's midnight.
#[derive(Clone, Copy, Debug, PartialEq, Eq, Structural)]
pub struct Moment {
    pub day: i32,
    pub nanos: u64,
}

/// What the command does.
#[derive(Clone, Copy, Debug, PartialEq, Eq, Structural)]
pub enum Reminder {
    /// The text held neither a date nor a time: nothing is scheduled.
    NotFound,
    /// The reminder is due at `at`; it is sent after `wait` nanoseconds.
    Scheduled { at: Moment, wait: u128 },
}

/// The nanoseconds from one moment to another, negative where the second is
/// the earlier one.
pub open spec fn nanos_between(from: Moment, to: Moment) -> int {
    (to.day - from.day) * NANOS_PER_DAY + (to.nanos - from.nanos)
}

/// When a reminder is due: on the date and at the time that were found. A
/// date alone stands for now's time of day on that date, a time alone for
/// that time today.
pub open spec fn due(date: Option<i32>, time: Option<u64>, now: Moment) -> Option<Moment> {
    match (date, time) {
        (None, None) => None,
        (Some(day), Some(nanos)) => Some(Moment { day, nanos }),
        (Some(day), None) => Some(Moment { day, nanos: now.nanos }),
        (None, Some(nanos)) => Some(Moment { day: now.day, nanos }),
    }
}

/// How long to wait for a moment: the time until then, and no time at all
/// for a moment that has passed.
pub open spec fn wait_until(now: Moment, at: Moment) -> int {
    if nanos_between(now, at) < 0 {
        0
    } else {
        nanos_between(now, at)
    }
}

/// Schedules a reminder for the date and the time that were found in the
/// text, as seen from `now`.
pub fn remind_me(date: Option<i32>, time: Option<u64>, now: Moment) -> (reminder: Reminder)
    ensures
        match due(date, time, now) {
            None => reminder == Reminder::NotFound,
            Some(moment) => reminder matches Reminder::Scheduled { at, wait } && at == moment
                && wait == wait_until(now, moment),
        },
{
    let at = match (date, time) {
        (None, None) => {
            return Reminder::NotFound;
        },
        (Some(day), Some(nanos)) => Moment { day, nanos },
        (Some(day), None) => Moment { day, nanos: now.nanos },
        (None, Some(nanos)) => Moment { day: now.day, nanos },
    };
    let days: i128 = at.day as i128 - now.day as i128;
    // the product is linear once the constant is written out
    assert(days * NANOS_PER_DAY == days * 86_400_000_000_000);
    let whole_days: i128 = days * (NANOS_PER_DAY as i128);
    let delay: i128 = whole_days + (at.nanos as i128 - now.nanos as i128);
    let wait: u128 = if delay < 0 {
        0
    } else {
        delay as u128
    };
    Reminder::Scheduled { at, wait }
}

/// The answer where the text held neither a date nor a time.
pub fn not_found_message() -> (text: &'static str)
    ensures
        text@ == "No date or time found"@,
{
    "No date or time found"
}

} // verus!
