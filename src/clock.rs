//! Calendar facts about an instant held as seconds since the Unix epoch (UTC).

use vstd::prelude::*;

verus! {

pub const SECONDS_PER_HOUR: i64 = 3600;

pub const SECONDS_PER_DAY: i64 = 86400;

pub const SECONDS_PER_WEEK: i64 = 604800;

/// The day count since 1970-01-01 (which was a Thursday).
pub open spec fn day_index(t: int) -> int {
    t / (SECONDS_PER_DAY as int)
}

/// ISO weekday of an instant: 1 is Monday, 7 is Sunday.
pub open spec fn weekday_of(t: int) -> int {
    (day_index(t) + 3) % 7 + 1
}

/// Hour of the day (0..=23) of an instant.
pub open spec fn hour_of(t: int) -> int {
    (t % (SECONDS_PER_DAY as int)) / (SECONDS_PER_HOUR as int)
}

/// Business hours: Monday to Friday, from 09:00 up to (not including) 17:00.
pub open spec fn is_business_time(t: int) -> bool {
    weekday_of(t) <= 5 && 9 <= hour_of(t) < 17
}

/// ISO weekday of `t`, counted from Monday as 1.
pub fn weekday_from_monday(t: i64) -> (r: u32)
    ensures
        r as int == weekday_of(t as int),
        1 <= r <= 7,
{
    let days = t.checked_div_euclid(SECONDS_PER_DAY).unwrap();
    let w = (days.checked_rem_euclid(7).unwrap() + 3) % 7 + 1;
    proof {
        assert((days as int % 7 + 3) % 7 == (days as int + 3) % 7) by (nonlinear_arith);
    }
    w as u32
}

/// Hour of the day of `t`, from 0 to 23.
pub fn hour_of_day(t: i64) -> (r: u32)
    ensures
        r as int == hour_of(t as int),
        r < 24,
{
    let secs = t.checked_rem_euclid(SECONDS_PER_DAY).unwrap();
    (secs / SECONDS_PER_HOUR) as u32
}

/// Whether `t` falls on a weekday from 09:00 up to (not including) 17:00.
pub fn in_business_hours(t: i64) -> (r: bool)
    ensures
        r == is_business_time(t as int),
{
    let weekday = weekday_from_monday(t);
    let hour = hour_of_day(t);
    !(weekday > 5 || hour < 9 || hour >= 17)
}

} // verus!
