//! The Redis side of click statistics: the scripts that update the
//! day-buckets atomically, the calls that run them, and the reading of the
//! last-click timestamps.

use vstd::prelude::*;
use vstd::string::*;

use crate::analytics::dates::{
    chrono_day_text, chrono_parse_date, instant_in_range, day_of_millis, day_text, millis_in_range, seconds_of_millis,
    utc_day, utc_seconds, FIRST_PLAIN_DAY, LAST_PLAIN_DAY,
};
use crate::analytics::snapshot::LastClick;
use crate::events::ClickEvent;
use crate::redis_keys::{global_stats_key_spec, link_last_clicked_at_key_spec, link_stats_key_spec, RedisKeys};
use crate::text::{i64_to_decimal, parse_i64, parse_i64_spec, signed_decimal};

verus! {

pub struct RedisStats {}

/// Atomic HMAX: sets a hash field to the greater of its current value and
/// the incoming one.
/// * KEYS: hash_key
/// * ARGV: field, value
///
/// Returns `true` when the field was updated.
pub const HMAX_SCRIPT: &'static str = "
local current = redis.call(\"HGET\", KEYS[1], ARGV[1])
if not current or tonumber(ARGV[2]) > tonumber(current) then
    redis.call(\"HSET\", KEYS[1], ARGV[1], ARGV[2])
    return true
end
return false
";

/// Atomic compare-and-delete of a hash field.
/// * KEYS: hash_key
/// * ARGV: field, expected_value
///
/// Returns `true` when the field was updated.
pub const COMPARE_AND_DELETE_SCRIPT: &'static str = "
local current = redis.call(\"HGET\", KEYS[1], ARGV[1])
if current == argv[2] then
    redis.call(\"HSET\", KEYS[1], ARGV[1], ARGV[2])
    return true
end
return false
";

/// Atomic processing of one click event.
/// * KEYS: event_stream, global_stats_key, link_stats_key, link_last_clicked_at_key
/// * ARGV: consumer_group, entry_id, day_string, timestamp
///
/// Returns 1 when the event was processed, 0 when it was already handled.
pub const RECORD_CLICK_SCRIPT: &'static str = "
local acked = redis.call('XACK', KEYS[1], ARGV[1], ARGV[2])
if acked == 0 then return 0 end
redis.call('HINCRBY', KEYS[2], ARGV[3], 1)
redis.call('HINCRBY', KEYS[3], ARGV[3], 1)
local ts = tonumber(ARGV[4])
local cur_ts = tonumber(redis.call('GET', KEYS[4]) or '0')
if ts > cur_ts then
    redis.call('SET', KEYS[4], ARGV[4])
end
redis.call('XDEL', KEYS[1], ARGV[2])
return 1
";

/// What became of a click event handed to the record script.
#[derive(Debug, Clone, Copy, PartialEq, Eq, Structural)]
pub enum EventOutcome {
    Applied,
    AlreadyHandled,
}

/// A Lua script to run, with its keys and arguments.
#[derive(Debug)]
pub struct ScriptCall {
    pub script: &'static str,
    pub keys: Vec<String>,
    pub args: Vec<String>,
}

pub open spec fn string_views(v: Seq<String>) -> Seq<Seq<char>> {
    v.map_values(|s: String| s@)
}

/// The `YYYY-MM-DD` text of the UTC day of the instant `millis`, when the
/// day can be rendered.
pub open spec fn click_day_text(millis: int) -> Option<Seq<char>> {
    let d = day_of_millis(millis);
    if i32::MIN <= d <= i32::MAX {
        chrono_day_text(d)
    } else {
        None
    }
}

/// `c` runs the record script on `event`, read from entry `entry_id` of the
/// stream `stream` by `group`: it counts the click in the global and the
/// link's bucket of the event's UTC day, and raises the link's last click to
/// the event's second.
pub open spec fn records_click(c: ScriptCall, stream: Seq<char>, group: Seq<char>, entry_id: Seq<char>, event: ClickEvent) -> bool {
    &&& c.script == RECORD_CLICK_SCRIPT
    &&& string_views(c.keys@) == seq![
        stream,
        global_stats_key_spec(),
        link_stats_key_spec(event.short_code@),
        link_last_clicked_at_key_spec(event.short_code@),
    ]
    &&& click_day_text(event.at_millis as int) matches Some(day) && string_views(c.args@) == seq![
        group,
        entry_id,
        day,
        signed_decimal(seconds_of_millis(event.at_millis as int)),
    ]
}

/// A link's last click as read from Redis: `None` when the value is not an
/// integer, `Some(None)` when the integer is no instant `chrono` can hold,
/// and the instant otherwise.
pub open spec fn last_click_reading(value: Seq<char>) -> Option<Option<int>> {
    match parse_i64_spec(value) {
        None => None,
        Some(ts) => if instant_in_range(ts) {
            Some(Some(ts))
        } else {
            Some(None)
        },
    }
}

/// Reads the first `n` (code, value) pairs: the links that have a value,
/// with their last click, in order; or, at the first value that cannot be
/// read, its index and whether it was not an integer at all.
pub open spec fn scan_last_clicks(codes: Seq<String>, values: Seq<Option<String>>, n: int) -> Result<
    Seq<(Seq<char>, int)>,
    (int, bool),
>
    decreases n,
{
    if n <= 0 {
        Ok(Seq::empty())
    } else {
        match scan_last_clicks(codes, values, n - 1) {
            Err(e) => Err(e),
            Ok(acc) => match values[n - 1] {
                None => Ok(acc),
                Some(v) => match last_click_reading(v@) {
                    None => Err((n - 1, true)),
                    Some(None) => Err((n - 1, false)),
                    Some(Some(ts)) => Ok(acc.push((codes[n - 1]@, ts))),
                },
            },
        }
    }
}

/// Once a value cannot be read, reading more pairs reports the same one.
proof fn lemma_scan_error_stays(codes: Seq<String>, values: Seq<Option<String>>, k: int, m: int)
    requires
        k <= m,
        scan_last_clicks(codes, values, k) is Err,
    ensures
        scan_last_clicks(codes, values, m) == scan_last_clicks(codes, values, k),
    decreases m - k,
{
    if k < m {
        lemma_scan_error_stays(codes, values, k, m - 1);
    }
}

pub open spec fn last_click_views(v: Seq<LastClick>) -> Seq<(Seq<char>, int)> {
    v.map_values(|c: LastClick| (c.short_code@, c.at_millis as int))
}

/// A last-click value that could not be read.
#[derive(Debug)]
pub enum LastClickError {
    /// The value is not an integer.
    InvalidTimestamp { short_code: String, value: String },
    /// The integer is no instant that can be represented.
    OutOfRange { short_code: String, millis: i64 },
}

/// `e` reports the value `value` of link `code` as unreadable, as not an
/// integer when `unparseable`.
pub open spec fn reports_value(e: LastClickError, code: Seq<char>, value: Seq<char>, unparseable: bool) -> bool {
    if unparseable {
        e matches LastClickError::InvalidTimestamp { short_code, value: v } && short_code@ == code && v@ == value
    } else {
        e matches LastClickError::OutOfRange { short_code, millis } && short_code@ == code
            && parse_i64_spec(value) == Some(millis as int)
    }
}

impl LastClickError {
    /// The error's message.
    pub fn message(&self) -> (m: String)
        ensures
            match self {
                LastClickError::InvalidTimestamp { short_code, value } => m@
                    == "invalid Redis last_clicked_at timestamp for "@ + short_code@ + ": "@ + value@,
                LastClickError::OutOfRange { short_code, millis } => m@ == "out-of-range timestamp for "@
                    + short_code@ + ": "@ + signed_decimal(*millis as int),
            },
    {
        match self {
            LastClickError::InvalidTimestamp { short_code, value } => {
                let mut m = String::from_str("invalid Redis last_clicked_at timestamp for ");
                m.append(short_code.as_str());
                m.append(": ");
                m.append(value.as_str());
                m
            },
            LastClickError::OutOfRange { short_code, millis } => {
                let mut m = String::from_str("out-of-range timestamp for ");
                m.append(short_code.as_str());
                m.append(": ");
                let t = i64_to_decimal(*millis);
                m.append(t.as_str());
                m
            },
        }
    }
}

impl RedisStats {
    /// The call of the HMAX script that raises `field` of `hash_key` to
    /// `value`.
    pub fn hmax_call(hash_key: &str, field: &str, value: i64) -> (call: ScriptCall)
        ensures
            call.script == HMAX_SCRIPT,
            string_views(call.keys@) == seq![hash_key@],
            string_views(call.args@) == seq![field@, signed_decimal(value as int)],
    {
        let mut keys: Vec<String> = Vec::new();
        keys.push(String::from_str(hash_key));
        let mut args: Vec<String> = Vec::new();
        args.push(String::from_str(field));
        args.push(i64_to_decimal(value));
        assert(string_views(keys@) =~= seq![hash_key@]);
        assert(string_views(args@) =~= seq![field@, signed_decimal(value as int)]);
        ScriptCall { script: HMAX_SCRIPT, keys, args }
    }

    /// The call of the compare-and-delete script on `field` of `hash_key`.
    pub fn compare_and_delete_call(hash_key: &str, field: &str, expected_value: &str) -> (call: ScriptCall)
        ensures
            call.script == COMPARE_AND_DELETE_SCRIPT,
            string_views(call.keys@) == seq![hash_key@],
            string_views(call.args@) == seq![field@, expected_value@],
    {
        let mut keys: Vec<String> = Vec::new();
        keys.push(String::from_str(hash_key));
        let mut args: Vec<String> = Vec::new();
        args.push(String::from_str(field));
        args.push(String::from_str(expected_value));
        assert(string_views(keys@) =~= seq![hash_key@]);
        assert(string_views(args@) =~= seq![field@, expected_value@]);
        ScriptCall { script: COMPARE_AND_DELETE_SCRIPT, keys, args }
    }

    /// The call of the record script for `event`, read from entry `entry_id`
    /// of the stream `event_stream_key` by `consumer_group`: it counts the
    /// click in the global and the link's bucket of the event's UTC day and
    /// raises the link's last click to the event's second. `None` when the
    /// event's day cannot be rendered.
    pub fn record_click_call(
        event_stream_key: &str,
        consumer_group: &str,
        entry_id: &str,
        event: &ClickEvent,
    ) -> (call: Option<ScriptCall>)
        ensures
            FIRST_PLAIN_DAY <= day_of_millis(event.at_millis as int) <= LAST_PLAIN_DAY ==> call is Some,
            match call {
                Some(c) => FIRST_PLAIN_DAY <= day_of_millis(event.at_millis as int) <= LAST_PLAIN_DAY ==> chrono_parse_date(
                    c.args@[2]@,
                    "%Y-%m-%d"@,
                ) == Some(day_of_millis(event.at_millis as int) as i32),
                None => true,
            },
            match click_day_text(event.at_millis as int) {
                None => call is None,
                Some(_) => call matches Some(c) && records_click(c, event_stream_key@, consumer_group@, entry_id@, *event),
            },
    {
        let day = utc_day(event.at_millis);
        if day < i32::MIN as i64 || day > i32::MAX as i64 {
            return None;
        }
        let text = match day_text(day as i32) {
            Some(t) => t,
            None => return None,
        };
        let secs = utc_seconds(event.at_millis);
        let mut keys: Vec<String> = Vec::new();
        keys.push(String::from_str(event_stream_key));
        keys.push(RedisKeys::global_stats_key());
        keys.push(RedisKeys::link_stats_key(event.short_code.as_str()));
        keys.push(RedisKeys::link_last_clicked_at_key(event.short_code.as_str()));
        let mut args: Vec<String> = Vec::new();
        args.push(String::from_str(consumer_group));
        args.push(String::from_str(entry_id));
        args.push(text);
        args.push(i64_to_decimal(secs));
        let ghost k = string_views(keys@);
        let ghost a = string_views(args@);
        assert(k =~= seq![
            event_stream_key@,
            global_stats_key_spec(),
            link_stats_key_spec(event.short_code@),
            link_last_clicked_at_key_spec(event.short_code@),
        ]);
        assert(a =~= seq![
            consumer_group@,
            entry_id@,
            chrono_day_text(day_of_millis(event.at_millis as int)).unwrap(),
            signed_decimal(seconds_of_millis(event.at_millis as int)),
        ]);
        Some(ScriptCall { script: RECORD_CLICK_SCRIPT, keys, args })
    }

    /// What the record script's reply means: 1, the event was applied; 0, it
    /// had already been handled; anything else is no answer of the script.
    pub fn click_outcome(reply: i64) -> (outcome: Option<EventOutcome>)
        ensures
            reply == 1 ==> outcome == Some(EventOutcome::Applied),
            reply == 0 ==> outcome == Some(EventOutcome::AlreadyHandled),
            reply != 0 && reply != 1 ==> outcome is None,
    {
        if reply == 1 {
            Some(EventOutcome::Applied)
        } else if reply == 0 {
            Some(EventOutcome::AlreadyHandled)
        } else {
            None
        }
    }

    /// The keys holding the last clicks of `short_codes`, in order.
    pub fn last_clicked_at_keys(short_codes: &Vec<String>) -> (keys: Vec<String>)
        ensures
            keys@.len() == short_codes@.len(),
            forall|i: int| 0 <= i < short_codes@.len() ==> #[trigger] keys@[i]@ == link_last_clicked_at_key_spec(short_codes@[i]@),
    {
        let mut keys: Vec<String> = Vec::new();
        let mut i: usize = 0;
        while i < short_codes.len()
            invariant
                i <= short_codes.len(),
                keys@.len() == i,
                forall|j: int| 0 <= j < i ==> #[trigger] keys@[j]@ == link_last_clicked_at_key_spec(short_codes@[j]@),
            decreases short_codes.len() - i,
        {
            keys.push(RedisKeys::link_last_clicked_at_key(short_codes[i].as_str()));
            i = i + 1;
        }
        keys
    }

    /// Reads the last clicks fetched for `short_codes`, `values` in the same
    /// order (pairs beyond the shorter list are ignored): each link with a
    /// value gets the instant it holds, in milliseconds; the first value that
    /// is not an integer, or not a representable instant, is an error.
    pub fn last_clicked_at_values(short_codes: &Vec<String>, values: &Vec<Option<String>>) -> (r: Result<
        Vec<LastClick>,
        LastClickError,
    >)
        ensures
            ({
                let n = if short_codes@.len() <= values@.len() { short_codes@.len() } else { values@.len() };
                match scan_last_clicks(short_codes@, values@, n as int) {
                    Ok(s) => r matches Ok(v) && last_click_views(v@) == s,
                    Err(bad) => r is Err && values@[bad.0] is Some && reports_value(
                        r->Err_0,
                        short_codes@[bad.0]@,
                        values@[bad.0]->Some_0@,
                        bad.1,
                    ),
                }
            }),
    {
        let n = if short_codes.len() <= values.len() { short_codes.len() } else { values.len() };
        let mut out: Vec<LastClick> = Vec::new();
        assert(last_click_views(out@) =~= Seq::empty());
        let mut i: usize = 0;
        while i < n
            invariant
                i <= n,
                n == (if short_codes@.len() <= values@.len() { short_codes@.len() } else { values@.len() }),
                scan_last_clicks(short_codes@, values@, i as int) == Ok::<Seq<(Seq<char>, int)>, (int, bool)>(
                    last_click_views(out@),
                ),
            decreases n - i,
        {
            match &values[i] {
                None => {},
                Some(v) => {
                    match parse_i64(v.as_str()) {
                        None => {
                            assert(last_click_reading(v@) is None);
                            assert(scan_last_clicks(short_codes@, values@, i + 1) == Err::<Seq<(Seq<char>, int)>, (int, bool)>(
                                (i as int, true),
                            ));
                            proof {
                                lemma_scan_error_stays(short_codes@, values@, i + 1, n as int);
                            }
                            let e = LastClickError::InvalidTimestamp { short_code: short_codes[i].clone(), value: v.clone() };
                            assert(reports_value(e, short_codes@[i as int]@, v@, true));
                            return Err(e);
                        },
                        Some(ts) => {
                            if !millis_in_range(ts) {
                                assert(last_click_reading(v@) == Some::<Option<int>>(None));
                                assert(scan_last_clicks(short_codes@, values@, i + 1) == Err::<Seq<(Seq<char>, int)>, (int, bool)>(
                                    (i as int, false),
                                ));
                                proof {
                                    lemma_scan_error_stays(short_codes@, values@, i + 1, n as int);
                                }
                                let e = LastClickError::OutOfRange { short_code: short_codes[i].clone(), millis: ts };
                                assert(reports_value(e, short_codes@[i as int]@, v@, false));
                                return Err(e);
                            }
                            let ghost before = out@;
                            out.push(LastClick { short_code: short_codes[i].clone(), at_millis: ts });
                            assert(last_click_views(out@) =~= last_click_views(before).push(
                                (short_codes@[i as int]@, ts as int),
                            ));
                        },
                    }
                },
            }
            i = i + 1;
        }
        Ok(out)
    }
}

} // verus!
