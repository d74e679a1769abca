//! Next-occurrence arithmetic for recurring sends.
//!
//! A pattern is either one of the presets `daily`, `weekly`, `monthly`
//! (a fixed 30 days) and `yearly` (a fixed 365 days), or a calendar
//! expression understood by the `cron` crate.

use vstd::prelude::*;
use crate::clock::{SECONDS_PER_DAY, SECONDS_PER_WEEK};
use crate::text::same_text;

verus! {

/// The latest instant that the calendar library can represent
/// (262142-12-31T23:59:59Z).
pub const LATEST_INSTANT: i64 = 8210266876799;

/// Whether the `cron` crate accepts `pattern` as a calendar expression.
pub uninterp spec fn cron_accepts(pattern: Seq<char>) -> bool;

/// Relies on `<cron::Schedule as FromStr>::from_str`: it succeeds exactly
/// on the expressions that the crate's grammar accepts.
#[verifier::external_body]
fn parses_as_calendar(pattern: &str) -> (r: bool)
    ensures
        r == cron_accepts(pattern@),
{
    <cron::Schedule as std::str::FromStr>::from_str(pattern).is_ok()
}

/// The earliest instant of the calendar expression `pattern` strictly after
/// `t`, as the `cron` crate computes it; `None` when there is none (or the
/// expression is not accepted). It depends on `pattern` and `t` alone.
pub uninterp spec fn cron_next(pattern: Seq<char>, t: int) -> Option<int>;

/// Relies on `<cron::Schedule as FromStr>::from_str`, `Schedule::after` and
/// the first item of its iterator, which searches from `t` plus one second
/// (so strictly after `t`) up to the year 2100.
#[verifier::external_body]
fn calendar_next(pattern: &str, t: i64) -> (r: Option<i64>)
    requires
        t < LATEST_INSTANT,
    ensures
        r matches Some(n) ==> cron_next(pattern@, t as int) == Some(n as int) && t < n <= LATEST_INSTANT,
        r is None ==> cron_next(pattern@, t as int) is None,
{
    let schedule = <cron::Schedule as std::str::FromStr>::from_str(pattern).ok()?;
    let start = chrono::DateTime::<chrono::Utc>::from_timestamp(t, 0)?;
    match schedule.after(&start).next() {
        Some(d) => Some(d.timestamp()),
        None => None,
    }
}

#[derive(Clone, Copy, Debug, PartialEq, Eq, Structural)]
pub enum Preset {
    Daily,
    Weekly,
    Monthly,
    Yearly,
}

#[derive(Clone, Copy, Debug, PartialEq, Eq, Structural)]
pub enum RecurrenceError {
    /// Neither a preset nor an accepted calendar expression.
    InvalidPattern,
    /// The calendar expression has no occurrence after the current time.
    NoUpcomingOccurrence,
    /// The next occurrence would lie past `LATEST_INSTANT`.
    OutOfRange,
}

pub open spec fn preset_of(pattern: Seq<char>) -> Option<Preset> {
    if pattern == "daily"@ {
        Some(Preset::Daily)
    } else if pattern == "weekly"@ {
        Some(Preset::Weekly)
    } else if pattern == "monthly"@ {
        Some(Preset::Monthly)
    } else if pattern == "yearly"@ {
        Some(Preset::Yearly)
    } else {
        None
    }
}

/// The fixed length of one period of a preset, in seconds.
pub open spec fn period_of(p: Preset) -> int {
    match p {
        Preset::Daily => SECONDS_PER_DAY as int,
        Preset::Weekly => SECONDS_PER_WEEK as int,
        Preset::Monthly => 30 * SECONDS_PER_DAY as int,
        Preset::Yearly => 365 * SECONDS_PER_DAY as int,
    }
}

/// The instant one period of `p` after `last`, when it can be represented.
pub open spec fn preset_next(p: Preset, last: int) -> Result<int, RecurrenceError> {
    if last + period_of(p) <= LATEST_INSTANT {
        Ok(last + period_of(p))
    } else {
        Err(RecurrenceError::OutOfRange)
    }
}

/// Recognises the four presets by their exact names.
pub fn parse_preset(pattern: &str) -> (r: Option<Preset>)
    ensures
        r == preset_of(pattern@),
{
    if same_text(pattern, "daily") {
        Some(Preset::Daily)
    } else if same_text(pattern, "weekly") {
        Some(Preset::Weekly)
    } else if same_text(pattern, "monthly") {
        Some(Preset::Monthly)
    } else if same_text(pattern, "yearly") {
        Some(Preset::Yearly)
    } else {
        None
    }
}

/// Seconds in one period of `p`.
pub fn period_seconds(p: Preset) -> (r: i64)
    ensures
        r == period_of(p),
        r > 0,
{
    match p {
        Preset::Daily => SECONDS_PER_DAY,
        Preset::Weekly => SECONDS_PER_WEEK,
        Preset::Monthly => 30 * SECONDS_PER_DAY,
        Preset::Yearly => 365 * SECONDS_PER_DAY,
    }
}

/// One period of `p` after `last`.
pub fn advance(p: Preset, last: i64) -> (r: Result<i64, RecurrenceError>)
    ensures
        r == (match preset_next(p, last as int) {
            Ok(n) => Ok(n as i64),
            Err(e) => Err(e),
        }),
{
    let step = period_seconds(p);
    if last > LATEST_INSTANT - step {
        Err(RecurrenceError::OutOfRange)
    } else {
        Ok(last + step)
    }
}

/// Whether the calendar library accepts `pattern` as a calendar expression.
pub fn validate_cron_pattern(pattern: &str) -> (r: bool)
    ensures
        r == cron_accepts(pattern@),
{
    parses_as_calendar(pattern)
}

/// What the next firing of `pattern` is, after a firing at `last` and at
/// the current instant `now`.
pub open spec fn next_occurrence_of(pattern: Seq<char>, last: int, now: int) -> Result<int, RecurrenceError> {
    match preset_of(pattern) {
        Some(p) => preset_next(p, last),
        None => if !cron_accepts(pattern) {
            Err(RecurrenceError::InvalidPattern)
        } else {
            match cron_next(pattern, now) {
                Some(n) => Ok(n),
                None => Err(RecurrenceError::NoUpcomingOccurrence),
            }
        },
    }
}

/// The next firing of `pattern` after a firing at `last`.
///
/// A preset adds its fixed period to `last`. Any other pattern is read as a
/// calendar expression, and its first occurrence strictly after `now` is
/// returned.
pub fn calculate_next_occurrence(pattern: &str, last: i64, now: i64) -> (r: Result<
    i64,
    RecurrenceError,
>)
    requires
        preset_of(pattern@) is Some || now < LATEST_INSTANT,
    ensures
        r matches Ok(n) ==> next_occurrence_of(pattern@, last as int, now as int) == Ok::<
            int,
            RecurrenceError,
        >(n as int),
        r matches Err(e) ==> next_occurrence_of(pattern@, last as int, now as int) == Err::<
            int,
            RecurrenceError,
        >(e),
        preset_of(pattern@) is None && r is Ok ==> now < r->Ok_0 <= LATEST_INSTANT,
{
    match parse_preset(pattern) {
        Some(p) => advance(p, last),
        None => {
            if !parses_as_calendar(pattern) {
                return Err(RecurrenceError::InvalidPattern);
            }
            match calendar_next(pattern, now) {
                Some(n) => Ok(n),
                None => Err(RecurrenceError::NoUpcomingOccurrence),
            }
        },
    }
}

/// `k` successive applications of a preset, starting from `t`.
pub open spec fn repeat_next(p: Preset, t: int, k: nat) -> Result<int, RecurrenceError>
    decreases k,
{
    if k == 0 {
        Ok(t)
    } else {
        match repeat_next(p, t, (k - 1) as nat) {
            Ok(x) => preset_next(p, x),
            Err(e) => Err(e),
        }
    }
}

/// A preset's next occurrence lies strictly after the instant it starts
/// from, and applying it again and again gives a strictly increasing
/// sequence of instants.
pub proof fn lemma_preset_strictly_increasing(pattern: Seq<char>, t: int, i: nat, j: nat)
    requires
        preset_of(pattern) is Some,
        i < j,
        repeat_next(preset_of(pattern)->0, t, j) is Ok,
    ensures
        preset_next(preset_of(pattern)->0, t) matches Ok(n) ==> n > t,
        repeat_next(preset_of(pattern)->0, t, i) is Ok,
        repeat_next(preset_of(pattern)->0, t, i)->Ok_0 < repeat_next(preset_of(pattern)->0, t, j)->Ok_0,
    decreases j,
{
    let p = preset_of(pattern)->0;
    let prev = repeat_next(p, t, (j - 1) as nat);
    assert(prev is Ok);
    assert(repeat_next(p, t, j)->Ok_0 == prev->Ok_0 + period_of(p));
    if i < j - 1 {
        lemma_preset_strictly_increasing(pattern, t, i, (j - 1) as nat);
    }
}

/// The next `count` firings of `pattern`, starting from `now`.
///
/// A preset gives `count` instants spaced one period apart, the first one
/// period after `now`. A calendar expression gives its occurrences after
/// `now` in order, fewer than `count` where the expression runs out.
pub fn get_next_occurrences(pattern: &str, count: usize, now: i64) -> (r: Result<
    Vec<i64>,
    RecurrenceError,
>)
    requires
        preset_of(pattern@) is Some || now < LATEST_INSTANT,
    ensures
        preset_of(pattern@) matches Some(p) ==> {
            &&& (r is Ok <==> count == 0 || repeat_next(p, now as int, count as nat) is Ok)
            &&& (r is Err ==> r == Err::<Vec<i64>, RecurrenceError>(RecurrenceError::OutOfRange))
            &&& (r matches Ok(v) ==> v@.len() == count && forall|k: int|
                0 <= k < count ==> repeat_next(p, now as int, (k + 1) as nat) == Ok::<
                    int,
                    RecurrenceError,
                >(#[trigger] v@[k] as int))
        },
        preset_of(pattern@) is None ==> {
            &&& (r is Ok <==> cron_accepts(pattern@))
            &&& (r is Err ==> r == Err::<Vec<i64>, RecurrenceError>(RecurrenceError::InvalidPattern))
            &&& (r matches Ok(v) ==> {
                &&& v@.len() <= count
                &&& (v@.len() > 0 ==> cron_next(pattern@, now as int) == Some(v@[0] as int) && now
                    < v@[0])
                &&& forall|k: int|
                    0 < k < v@.len() ==> cron_next(pattern@, v@[k - 1] as int) == Some(
                        #[trigger] v@[k] as int,
                    )
                &&& forall|k: int| 0 < k < v@.len() ==> v@[k - 1] < #[trigger] v@[k]
                &&& (v@.len() == 0 && count > 0 ==> cron_next(pattern@, now as int) is None)
                &&& (0 < v@.len() < count ==> cron_next(pattern@, v@.last() as int) is None
                    || v@.last() == LATEST_INSTANT)
            })
        },
{
    match parse_preset(pattern) {
        Some(p) => {
            let mut out: Vec<i64> = Vec::new();
            let mut current = now;
            let mut i: usize = 0;
            while i < count
                invariant
                    preset_of(pattern@) == Some(p),
                    i <= count,
                    out@.len() == i,
                    repeat_next(p, now as int, i as nat) == Ok::<int, RecurrenceError>(current as int),
                    forall|k: int|
                        0 <= k < i ==> repeat_next(p, now as int, (k + 1) as nat) == Ok::<
                            int,
                            RecurrenceError,
                        >(#[trigger] out@[k] as int),
                decreases count - i,
            {
                match advance(p, current) {
                    Ok(n) => {
                        current = n;
                        out.push(n);
                    },
                    Err(e) => {
                        proof {
                            lemma_error_persists(p, now as int, (i + 1) as nat, count as nat);
                        }
                        return Err(e);
                    },
                }
                i = i + 1;
            }
            Ok(out)
        },
        None => {
            if !parses_as_calendar(pattern) {
                return Err(RecurrenceError::InvalidPattern);
            }
            let mut out: Vec<i64> = Vec::new();
            let mut current = now;
            while out.len() < count
                invariant
                    preset_of(pattern@) is None,
                    cron_accepts(pattern@),
                    out@.len() <= count,
                    now <= current < LATEST_INSTANT,
                    out@.len() == 0 ==> current == now,
                    out@.len() > 0 ==> current == out@.last(),
                    out@.len() > 0 ==> cron_next(pattern@, now as int) == Some(out@[0] as int),
                    out@.len() > 0 ==> now < out@[0],
                    forall|k: int|
                        0 < k < out@.len() ==> cron_next(pattern@, out@[k - 1] as int) == Some(
                            #[trigger] out@[k] as int,
                        ),
                    forall|k: int| 0 < k < out@.len() ==> out@[k - 1] < #[trigger] out@[k],
                decreases count - out@.len(),
            {
                match calendar_next(pattern, current) {
                    Some(n) => {
                        out.push(n);
                        if n >= LATEST_INSTANT {
                            return Ok(out);
                        }
                        current = n;
                    },
                    None => {
                        return Ok(out);
                    },
                }
            }
            Ok(out)
        },
    }
}

/// Once a chain of presets runs out of range it stays out of range.
proof fn lemma_error_persists(p: Preset, t: int, i: nat, j: nat)
    requires
        repeat_next(p, t, i) is Err,
        i <= j,
    ensures
        repeat_next(p, t, j) is Err,
    decreases j,
{
    if i < j {
        lemma_error_persists(p, t, i, (j - 1) as nat);
    }
}

} // verus!
