//! Calendar days and instants, and the calls into `chrono` that parse and
//! render them. A day is counted as `chrono` counts it: day 1 is
//! January 1 of year 1 of the common era. An instant is a count of
//! milliseconds since the Unix epoch.

use vstd::prelude::*;

use chrono::Datelike;

verus! {

/// The day of the Unix epoch, January 1 1970.
pub const UNIX_EPOCH_DAY: i32 = 719_163;

/// Milliseconds in a day.
pub const MILLIS_PER_DAY: i64 = 86_400_000;

/// What `NaiveDate::parse_from_str(text, format)` yields, as the day it
/// names; `None` when it fails.
pub uninterp spec fn chrono_parse_date(text: Seq<char>, format: Seq<char>) -> Option<i32>;

/// What `NaiveDate::from_num_days_from_ce_opt(day)` renders to with
/// `to_string()` (`YYYY-MM-DD`); `None` when the day is out of range.
pub uninterp spec fn chrono_day_text(day: int) -> Option<Seq<char>>;


/// `NaiveDate::parse_from_str(text, format)`, as a day count
/// (`num_days_from_ce`). The result is named, not described.
#[verifier::external_body]
pub(crate) fn parse_date(text: &str, format: &str) -> (day: Option<i32>)
    ensures
        day == chrono_parse_date(text@, format@),
{
    chrono::NaiveDate::parse_from_str(text, format).ok().map(|d| d.num_days_from_ce())
}

/// January 1 of year 1: from this day on, `chrono` renders days as plain
/// `YYYY-MM-DD`.
pub const FIRST_PLAIN_DAY: i32 = 1;

/// December 31 of year 9999, the last day `chrono` renders as plain
/// `YYYY-MM-DD`.
pub const LAST_PLAIN_DAY: i32 = 3_652_059;

/// `NaiveDate::from_num_days_from_ce_opt(day)` rendered with `to_string()`.
/// The text is named, not described; what is stated is what `chrono`
/// documents: the days of the years 1 to 9999 exist, and a date renders in
/// the format `%Y-%m-%d` that parses it back.
#[verifier::external_body]
pub(crate) fn day_text(day: i32) -> (text: Option<String>)
    ensures
        match chrono_day_text(day as int) {
            Some(t) => text matches Some(s) && s@ == t,
            None => text is None,
        },
        FIRST_PLAIN_DAY <= day <= LAST_PLAIN_DAY ==> text is Some,
        match text {
            Some(s) => FIRST_PLAIN_DAY <= day <= LAST_PLAIN_DAY ==> chrono_parse_date(s@, "%Y-%m-%d"@) == Some(day),
            None => true,
        },
{
    chrono::NaiveDate::from_num_days_from_ce_opt(day).map(|d| d.to_string())
}

/// The day on which the instant `millis` falls, in UTC.
pub open spec fn day_of_millis(millis: int) -> int {
    UNIX_EPOCH_DAY + millis / (MILLIS_PER_DAY as int)
}

/// The first day `chrono` represents: January 1 of year -262143.
pub const FIRST_DAY: i32 = -95_746_129;

/// The last day `chrono` represents: December 31 of year 262142.
pub const LAST_DAY: i32 = 95_745_399;

/// Whether `DateTime::<Utc>::from_timestamp_millis(millis)` gives an instant:
/// whether the day the instant falls on is one `chrono` represents (the time
/// of day always is).
pub open spec fn instant_in_range(millis: int) -> bool {
    FIRST_DAY <= day_of_millis(millis) <= LAST_DAY
}

/// The whole seconds since the epoch of the instant `millis`, rounded down,
/// as `DateTime::timestamp` gives them.
pub open spec fn seconds_of_millis(millis: int) -> int {
    millis / 1000
}

/// The day on which the instant `millis` falls, in UTC.
pub fn utc_day(millis: i64) -> (day: i64)
    ensures
        day == day_of_millis(millis as int),
{
    let q = if millis >= 0 {
        millis / MILLIS_PER_DAY
    } else {
        -((-(millis + 1)) / MILLIS_PER_DAY) - 1
    };
    assert(q == millis as int / (MILLIS_PER_DAY as int)) by (nonlinear_arith)
        requires
            millis >= 0 ==> q == (millis as int) / (MILLIS_PER_DAY as int),
            millis < 0 ==> q == -((-(millis + 1)) / (MILLIS_PER_DAY as int)) - 1,
    ;
    UNIX_EPOCH_DAY as i64 + q
}

/// The whole seconds since the epoch of the instant `millis`, rounded down.
pub fn utc_seconds(millis: i64) -> (secs: i64)
    ensures
        secs == seconds_of_millis(millis as int),
{
    let q = if millis >= 0 {
        millis / 1000
    } else {
        -((-(millis + 1)) / 1000) - 1
    };
    assert(q == millis as int / 1000) by (nonlinear_arith)
        requires
            millis >= 0 ==> q == (millis as int) / 1000int,
            millis < 0 ==> q == -((-(millis + 1)) / 1000int) - 1,
    ;
    q
}

/// Whether `DateTime::<Utc>::from_timestamp_millis(millis)` gives an
/// instant.
pub(crate) fn millis_in_range(millis: i64) -> (ok: bool)
    ensures
        ok == instant_in_range(millis as int),
{
    let day = utc_day(millis);
    FIRST_DAY as i64 <= day && day <= LAST_DAY as i64
}

} // verus!
