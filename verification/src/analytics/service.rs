//! What the analytics query service answers: the window of days asked for,
//! the daily clicks as dates and counts, and the replies that follow each
//! call of the statistics repository.

use vstd::prelude::*;
use vstd::string::*;

use crate::analytics::dates::{chrono_day_text, day_text};
use crate::db::DbError;
use crate::status::{refuses, ServiceStatus, StatusCode};

verus! {

/// The days of statistics returned when none are asked for.
pub const DEFAULT_DAYS: u32 = 7;

/// The most days of statistics returned.
pub const MAX_DAYS: u32 = 90;

/// The clicks of one day, the day as `YYYY-MM-DD`.
#[derive(Debug, Clone)]
pub struct DailyClicks {
    pub date: String,
    pub clicks: u64,
}

/// The statistics of one link: its total, its daily clicks, and its last
/// click in milliseconds since the Unix epoch, if any.
#[derive(Debug)]
pub struct LinkStatsResponse {
    pub short_code: String,
    pub total_clicks: u64,
    pub daily_clicks: Vec<DailyClicks>,
    pub last_clicked_at: Option<i64>,
}

/// The statistics of all links: the total and the daily clicks.
#[derive(Debug)]
pub struct GlobalStatsResponse {
    pub total_clicks: u64,
    pub daily_clicks: Vec<DailyClicks>,
}

/// The number of days asked for, `DEFAULT_DAYS` when none are, clamped to
/// 1 ..= `MAX_DAYS`.
pub open spec fn clamp_days_spec(days: Option<u32>) -> int {
    let d = match days {
        Some(d) => d as int,
        None => DEFAULT_DAYS as int,
    };
    if d < 1 {
        1
    } else if d > MAX_DAYS {
        MAX_DAYS as int
    } else {
        d
    }
}

/// The number of days of statistics to return for a request asking for
/// `days`.
pub fn clamp_days(days: Option<u32>) -> (d: i32)
    ensures
        d == clamp_days_spec(days),
        1 <= d <= MAX_DAYS,
{
    let d = match days {
        Some(d) => d,
        None => DEFAULT_DAYS,
    };
    let c = if d < 1 {
        1
    } else if d > MAX_DAYS {
        MAX_DAYS
    } else {
        d
    };
    c as i32
}

/// Whether every day of `rows` can be rendered.
pub open spec fn all_days_render(rows: Seq<(i32, i64)>) -> bool {
    forall|i: int| 0 <= i < rows.len() ==> (#[trigger] chrono_day_text(rows[i].0 as int)) is Some
}

/// `out` lists the rows `rows` as dates and counts, in order.
pub open spec fn daily_matches(out: Seq<DailyClicks>, rows: Seq<(i32, i64)>) -> bool {
    &&& out.len() == rows.len()
    &&& forall|i: int|
        0 <= i < rows.len() ==> chrono_day_text(rows[i].0 as int) == Some((#[trigger] out[i]).date@) && out[i].clicks
            == rows[i].1 as u64
}

/// The rows (day, clicks) as daily clicks, each day as its `YYYY-MM-DD`
/// text; `None` when a day cannot be rendered.
pub fn to_daily_clicks(rows: Vec<(i32, i64)>) -> (r: Option<Vec<DailyClicks>>)
    ensures
        r is Some <==> all_days_render(rows@),
        r matches Some(out) ==> daily_matches(out@, rows@),
{
    let mut out: Vec<DailyClicks> = Vec::new();
    let mut i: usize = 0;
    while i < rows.len()
        invariant
            i <= rows@.len(),
            out@.len() == i,
            forall|k: int|
                0 <= k < i ==> chrono_day_text(rows@[k].0 as int) == Some((#[trigger] out@[k]).date@) && out@[k].clicks
                    == rows@[k].1 as u64,
        decreases rows@.len() - i,
    {
        let (day, clicks) = rows[i];
        match day_text(day) {
            Some(date) => {
                out.push(DailyClicks { date, clicks: clicks as u64 });
            },
            None => {
                assert(chrono_day_text(rows@[i as int].0 as int) is None);
                return None;
            },
        }
        i = i + 1;
    }
    assert forall|k: int| 0 <= k < rows@.len() implies (#[trigger] chrono_day_text(rows@[k].0 as int)) is Some by {
        assert(chrono_day_text(rows@[k].0 as int) == Some(out@[k].date@));
    }
    Some(out)
}

/// The refusal when the statistics repository failed.
pub fn database_error() -> (s: ServiceStatus)
    ensures
        refuses(s, StatusCode::Internal, "Database error"@),
{
    ServiceStatus { code: StatusCode::Internal, message: "Database error" }
}

/// The refusal when a link's totals could not be read: not found when no
/// such link exists, internal otherwise.
pub fn link_totals_failed(err: &DbError) -> (s: ServiceStatus)
    ensures
        err is NotFound ==> refuses(s, StatusCode::NotFound, "Short code not found"@),
        !(err is NotFound) ==> refuses(s, StatusCode::Internal, "Database error"@),
{
    match err {
        DbError::NotFound => ServiceStatus { code: StatusCode::NotFound, message: "Short code not found" },
        _ => database_error(),
    }
}

/// The reply with the statistics of `short_code`, whose totals are
/// (`total_clicks`, `last_clicked_at`), once the repository answered
/// `daily`: a failure, or a day that cannot be rendered, is refused as
/// internal.
pub fn link_stats_response(
    short_code: String,
    total_clicks: i64,
    last_clicked_at: Option<i64>,
    daily: Result<Vec<(i32, i64)>, DbError>,
) -> (r: Result<LinkStatsResponse, ServiceStatus>)
    ensures
        match daily {
            Err(_) => r matches Err(s) && refuses(s, StatusCode::Internal, "Database error"@),
            Ok(rows) => if all_days_render(rows@) {
                r matches Ok(resp) && resp.short_code@ == short_code@ && resp.total_clicks == total_clicks as u64
                    && daily_matches(resp.daily_clicks@, rows@) && resp.last_clicked_at == last_clicked_at
            } else {
                r matches Err(s) && refuses(s, StatusCode::Internal, "Database error"@)
            },
        },
{
    match daily {
        Err(_) => Err(database_error()),
        Ok(rows) => match to_daily_clicks(rows) {
            Some(daily_clicks) => Ok(
                LinkStatsResponse { short_code, total_clicks: total_clicks as u64, daily_clicks, last_clicked_at },
            ),
            None => Err(database_error()),
        },
    }
}

/// The reply with the statistics of all links, whose total is
/// `total_clicks`, once the repository answered `daily`: a failure, or a
/// day that cannot be rendered, is refused as internal.
pub fn global_stats_response(total_clicks: i64, daily: Result<Vec<(i32, i64)>, DbError>) -> (r: Result<
    GlobalStatsResponse,
    ServiceStatus,
>)
    ensures
        match daily {
            Err(_) => r matches Err(s) && refuses(s, StatusCode::Internal, "Database error"@),
            Ok(rows) => if all_days_render(rows@) {
                r matches Ok(resp) && resp.total_clicks == total_clicks as u64 && daily_matches(
                    resp.daily_clicks@,
                    rows@,
                )
            } else {
                r matches Err(s) && refuses(s, StatusCode::Internal, "Database error"@)
            },
        },
{
    match daily {
        Err(_) => Err(database_error()),
        Ok(rows) => match to_daily_clicks(rows) {
            Some(daily_clicks) => Ok(GlobalStatsResponse { total_clicks: total_clicks as u64, daily_clicks }),
            None => Err(database_error()),
        },
    }
}

} // verus!
