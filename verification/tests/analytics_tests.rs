use chrono::{Datelike, NaiveDate, TimeZone, Utc};

use kurlyk::analytics::click_counter::ClickBuffer;
use kurlyk::analytics::consumer::{
    check_config, entry_action, group_creation, loop_action, stream_read, ConsumerSettingError, DrainProgress,
    EntryAction, GroupCreation, LoopAction, ReadResult, CONSUMER_GROUP, CONSUMER_NAME,
};
use kurlyk::analytics::dates::{
    utc_day, utc_seconds, FIRST_DAY, FIRST_PLAIN_DAY, LAST_DAY, LAST_PLAIN_DAY, UNIX_EPOCH_DAY,
};
use kurlyk::analytics::merge::{merge_fits_check, plan_merge};
use kurlyk::analytics::persistence::{
    rehydration_writes, rolling_window_start, stale_cutoff, SnapshotScan,
};
use kurlyk::analytics::redis_keys::RedisKeys as AnalyticsKeys;
use kurlyk::analytics::redis_stats::{
    EventOutcome, LastClickError, RedisStats, HMAX_SCRIPT, RECORD_CLICK_SCRIPT,
};
use kurlyk::analytics::service::{
    clamp_days, database_error, global_stats_response, link_stats_response, link_totals_failed, to_daily_clicks,
    DailyClicks,
};
use kurlyk::analytics::snapshot::{
    calculate_merge_delta, parse_daily_counts, GlobalDailyStats, LastClick, LinkDailyStats, RedisSnapshot,
    RehydrationData,
};
use kurlyk::analytics::trim::{split_link_hash, TrimError};
use kurlyk::config::AnalyticsConfig;
use kurlyk::config::AppConfig;
use kurlyk::db::{DbError, SqlFailure, SqlFailureKind};
use kurlyk::events::ClickEvent;
use kurlyk::status::StatusCode;
use kurlyk::time::TimeSpan;

fn day(y: i32, m: u32, d: u32) -> i32 {
    NaiveDate::from_ymd_opt(y, m, d).unwrap().num_days_from_ce()
}

fn fields(values: &[(&str, &str)]) -> Vec<(String, String)> {
    values.iter().map(|(k, v)| (k.to_string(), v.to_string())).collect()
}

fn other_error() -> DbError {
    DbError::Other(SqlFailure { kind: SqlFailureKind::RowNotFound, message: "row not found".to_string() })
}

fn millis(y: i32, m: u32, d: u32, h: u32) -> i64 {
    Utc.with_ymd_and_hms(y, m, d, h, 0, 0).unwrap().timestamp_millis()
}

#[test]
fn test_clamp_days() {
    assert_eq!(clamp_days(None), 7);
    assert_eq!(clamp_days(Some(14)), 14);
    assert_eq!(clamp_days(Some(0)), 1);
    assert_eq!(clamp_days(Some(200)), 90);
    assert_eq!(clamp_days(Some(1)), 1);
    assert_eq!(clamp_days(Some(90)), 90);
}

#[test]
fn test_to_daily_clicks() {
    let date1 = day(2026, 8, 1);
    let date2 = day(2026, 8, 2);
    let rows = vec![(date1, 42), (date2, 100)];
    let daily = to_daily_clicks(rows).unwrap();
    assert_eq!(daily.len(), 2);
    assert_eq!(daily[0].date, "2026-08-01");
    assert_eq!(daily[0].clicks, 42);
    assert_eq!(daily[1].date, "2026-08-02");
    assert_eq!(daily[1].clicks, 100);

    let empty: Vec<DailyClicks> = to_daily_clicks(vec![]).unwrap();
    assert!(empty.is_empty());
}

#[test]
fn test_get_link_stats_success() {
    let date = day(2026, 8, 1);
    let last = 1_700_000_000_000;
    let resp = link_stats_response("test123".to_string(), 42, Some(last), Ok(vec![(date, 42)])).unwrap();
    assert_eq!(resp.short_code, "test123");
    assert_eq!(resp.total_clicks, 42);
    assert_eq!(resp.daily_clicks.len(), 1);
    assert_eq!(resp.daily_clicks[0].date, "2026-08-01");
    assert_eq!(resp.daily_clicks[0].clicks, 42);
    assert!(resp.last_clicked_at.is_some());
}

#[test]
fn test_get_link_stats_not_found() {
    let err = link_totals_failed(&DbError::NotFound);
    assert_eq!(err.code, StatusCode::NotFound);
    assert_eq!(err.message, "Short code not found");
}

#[test]
fn test_get_link_stats_no_clicks() {
    let resp = link_stats_response("noclicks".to_string(), 0, None, Ok(vec![])).unwrap();
    assert_eq!(resp.total_clicks, 0);
    assert!(resp.daily_clicks.is_empty());
    assert!(resp.last_clicked_at.is_none());
}

#[test]
fn test_get_link_stats_clamping() {
    assert_eq!(clamp_days(Some(200)), 90);
}

#[test]
fn test_get_link_stats_db_errors() {
    let err1 = link_totals_failed(&other_error());
    assert_eq!(err1.code, StatusCode::Internal);
    let err2 = link_stats_response("abc".to_string(), 10, None, Err(other_error())).unwrap_err();
    assert_eq!(err2.code, StatusCode::Internal);
}

#[test]
fn test_get_global_stats_success() {
    let date = day(2026, 8, 1);
    let resp = global_stats_response(1000, Ok(vec![(date, 100)])).unwrap();
    assert_eq!(resp.total_clicks, 1000);
    assert_eq!(resp.daily_clicks.len(), 1);
    assert_eq!(resp.daily_clicks[0].date, "2026-08-01");
    assert_eq!(resp.daily_clicks[0].clicks, 100);
}

#[test]
fn test_get_global_stats_db_errors() {
    let err1 = database_error();
    assert_eq!(err1.code, StatusCode::Internal);
    let err2 = global_stats_response(500, Err(other_error())).unwrap_err();
    assert_eq!(err2.code, StatusCode::Internal);
    assert_eq!(err2.message, "Database error");
}

#[test]
fn test_get_global_stats_empty() {
    let resp = global_stats_response(0, Ok(vec![])).unwrap();
    assert_eq!(resp.total_clicks, 0);
    assert!(resp.daily_clicks.is_empty());
}

#[test]
fn daily_clicks_refuse_an_unrenderable_day() {
    assert!(to_daily_clicks(vec![(i32::MAX, 1)]).is_none());
    assert_eq!(global_stats_response(1, Ok(vec![(i32::MAX, 1)])).unwrap_err().code, StatusCode::Internal);
}

#[test]
fn dates_follow_chrono() {
    let (read, malformed) = parse_daily_counts(fields(&[("2026-08-01", "1"), ("2026-13-01", "1")]));
    assert_eq!(read, vec![GlobalDailyStats { day: day(2026, 8, 1), clicks: 1 }]);
    assert_eq!(malformed.len(), 1);
    assert_eq!(malformed[0].reason, "invalid date format");
    let shown = to_daily_clicks(vec![(day(1999, 12, 31), 1)]).unwrap();
    assert_eq!(shown.len(), 1);
    assert_eq!((shown[0].date.as_str(), shown[0].clicks), ("1999-12-31", 1));
    assert!(to_daily_clicks(vec![(i32::MAX, 1)]).is_none());
    assert_eq!(i64::from(UNIX_EPOCH_DAY), i64::from(day(1970, 1, 1)));
    assert_eq!(utc_day(millis(2026, 8, 1, 23)), i64::from(day(2026, 8, 1)));
    assert_eq!(utc_day(-1), i64::from(day(1969, 12, 31)));
    assert_eq!(utc_seconds(-1), -1);
    assert_eq!(utc_seconds(1_999), 1);
}

#[test]
fn merge_delta_keeps_the_larger_count() {
    assert_eq!(calculate_merge_delta(5, 8), (8, 3));
    assert_eq!(calculate_merge_delta(8, 5), (8, 0));
    // merging again adds nothing
    assert_eq!(calculate_merge_delta(8, 8), (8, 0));
}

#[test]
fn daily_counts_are_parsed_and_malformed_fields_reported() {
    let (valid, malformed) = parse_daily_counts(fields(&[
        ("2026-08-01", "5"),
        ("not-a-date", "1"),
        ("2026-08-02", "-3"),
        ("2026-08-03", "x"),
        ("2026-08-01", "7"),
    ]));
    assert_eq!(valid, vec![GlobalDailyStats { day: day(2026, 8, 1), clicks: 7 }]);
    let reasons: Vec<(&str, &str, &str)> =
        malformed.iter().map(|m| (m.key.as_str(), m.value.as_str(), m.reason)).collect();
    assert_eq!(reasons, vec![
        ("not-a-date", "1", "invalid date format"),
        ("2026-08-02", "-3", "negative count"),
        ("2026-08-03", "x", "invalid count"),
    ]);
}

#[test]
fn analytics_keys() {
    assert_eq!(AnalyticsKeys::global_key(), "stats_global");
    assert_eq!(AnalyticsKeys::link_key("abc"), "stats:abc");
}

#[test]
fn record_click_call_names_the_keys_and_the_day() {
    let event = ClickEvent { short_code: "abc".to_string(), at_millis: millis(2026, 8, 1, 12) };
    let call = RedisStats::record_click_call("Events", "Analytics", "1-0", &event).unwrap();
    assert_eq!(call.script, RECORD_CLICK_SCRIPT);
    assert_eq!(call.keys, vec!["Events", "stats:global", "stats:link:abc", "stats:last_clicked_at:abc"]);
    let secs = (millis(2026, 8, 1, 12) / 1000).to_string();
    assert_eq!(call.args, vec!["Analytics".to_string(), "1-0".to_string(), "2026-08-01".to_string(), secs]);
    // the snapshot reads the bucket back under the click's day
    let (read, _) = parse_daily_counts(fields(&[(call.args[2].as_str(), "1")]));
    assert_eq!(read, vec![GlobalDailyStats { day: day(2026, 8, 1), clicks: 1 }]);
}

#[test]
fn plain_days_span_years_one_to_9999() {
    assert_eq!(FIRST_PLAIN_DAY, day(1, 1, 1));
    assert_eq!(LAST_PLAIN_DAY, day(9999, 12, 31));
    let shown = to_daily_clicks(vec![(FIRST_PLAIN_DAY, 1), (LAST_PLAIN_DAY, 2)]).unwrap();
    assert_eq!(shown[0].date, "0001-01-01");
    assert_eq!(shown[1].date, "9999-12-31");
    let (read, _) = parse_daily_counts(fields(&[("0001-01-01", "1"), ("9999-12-31", "2")]));
    assert_eq!(read.len(), 2);
    assert!(read.contains(&GlobalDailyStats { day: FIRST_PLAIN_DAY, clicks: 1 }));
    assert!(read.contains(&GlobalDailyStats { day: LAST_PLAIN_DAY, clicks: 2 }));
}

#[test]
fn click_outcome_follows_the_script_reply() {
    assert_eq!(RedisStats::click_outcome(1), Some(EventOutcome::Applied));
    assert_eq!(RedisStats::click_outcome(0), Some(EventOutcome::AlreadyHandled));
    assert_eq!(RedisStats::click_outcome(2), None);
}

#[test]
fn hmax_call_writes_the_count_in_decimal() {
    let call = RedisStats::hmax_call("stats:global", "2026-08-01", -42);
    assert_eq!(call.script, HMAX_SCRIPT);
    assert_eq!(call.keys, vec!["stats:global"]);
    assert_eq!(call.args, vec!["2026-08-01", "-42"]);
    let call = RedisStats::compare_and_delete_call("h", "f", "v");
    assert_eq!(call.args, vec!["f", "v"]);
}

#[test]
fn last_clicks_are_read_in_order() {
    let codes = vec!["a".to_string(), "b".to_string(), "c".to_string()];
    assert_eq!(RedisStats::last_clicked_at_keys(&codes), vec![
        "stats:last_clicked_at:a",
        "stats:last_clicked_at:b",
        "stats:last_clicked_at:c"
    ]);
    let values = vec![Some("1700000000000".to_string()), None, Some("5".to_string())];
    let clicks = RedisStats::last_clicked_at_values(&codes, &values).unwrap();
    let read: Vec<(&str, i64)> = clicks.iter().map(|c| (c.short_code.as_str(), c.at_millis)).collect();
    assert_eq!(read, vec![("a", 1_700_000_000_000), ("c", 5)]);
}

#[test]
fn last_click_errors() {
    let codes = vec!["a".to_string(), "b".to_string()];
    let err = RedisStats::last_clicked_at_values(&codes, &vec![Some("1".to_string()), Some("soon".to_string())])
        .unwrap_err();
    assert!(matches!(&err, LastClickError::InvalidTimestamp { short_code, value } if short_code == "b" && value == "soon"));
    assert_eq!(err.message(), "invalid Redis last_clicked_at timestamp for b: soon");
    let err = RedisStats::last_clicked_at_values(&codes, &vec![Some(i64::MAX.to_string()), None]).unwrap_err();
    assert!(matches!(&err, LastClickError::OutOfRange { short_code, millis } if short_code == "a" && *millis == i64::MAX));
    assert_eq!(err.message(), format!("out-of-range timestamp for a: {}", i64::MAX));
}

#[test]
fn last_clicks_accept_exactly_the_instants_chrono_represents() {
    assert_eq!(FIRST_DAY, NaiveDate::MIN.num_days_from_ce());
    assert_eq!(LAST_DAY, NaiveDate::MAX.num_days_from_ce());
    let last = (i64::from(LAST_DAY) - i64::from(UNIX_EPOCH_DAY) + 1) * 86_400_000 - 1;
    let first = (i64::from(FIRST_DAY) - i64::from(UNIX_EPOCH_DAY)) * 86_400_000;
    let codes = vec!["a".to_string()];
    for (millis, fits) in [(last, true), (last + 1, false), (first, true), (first - 1, false)] {
        assert_eq!(chrono::DateTime::from_timestamp_millis(millis).is_some(), fits);
        let read = RedisStats::last_clicked_at_values(&codes, &vec![Some(millis.to_string())]);
        assert_eq!(read.is_ok(), fits);
    }
}

#[test]
fn window_and_cutoff() {
    let now = millis(2026, 8, 10, 12);
    assert_eq!(rolling_window_start(now), i64::from(day(2026, 8, 3)));
    assert_eq!(stale_cutoff(now), i64::from(day(2026, 8, 2)));
}

#[test]
fn scan_collects_link_buckets_and_replaces_a_hash_met_again() {
    let mut scan = SnapshotScan::new();
    assert_eq!(SnapshotScan::key_pattern(), "stats:link:*");
    assert!(scan.add_link_hash("unrelated", fields(&[("2026-08-01", "1")])).is_none());
    let malformed = scan
        .add_link_hash("stats:link:abc", fields(&[("2026-08-01", "3"), ("2026-08-02", "4"), ("bad", "1")]))
        .unwrap();
    assert_eq!(malformed.len(), 1);
    scan.add_link_hash("stats:link:xyz", fields(&[("2026-07-20", "9")])).unwrap();
    scan.add_link_hash("stats:link:abc", fields(&[("2026-08-02", "6")])).unwrap();
    let mut codes = scan.link_codes();
    codes.sort();
    assert_eq!(codes, vec!["abc", "xyz"]);
    let last = vec![LastClick { short_code: "abc".to_string(), at_millis: 1 }];
    let (snapshot, malformed) =
        scan.finish(fields(&[("2026-08-01", "10"), ("oops", "1")]), last, i64::from(day(2026, 8, 1)));
    assert_eq!(malformed.len(), 1);
    assert_eq!(snapshot.global_daily, vec![GlobalDailyStats { day: day(2026, 8, 1), clicks: 10 }]);
    let mut links: Vec<(String, i32, i64)> =
        snapshot.link_daily.iter().map(|l| (l.short_code.clone(), l.day, l.clicks)).collect();
    links.sort();
    assert_eq!(links, vec![
        ("abc".to_string(), day(2026, 8, 1), 3),
        ("abc".to_string(), day(2026, 8, 2), 6),
        ("xyz".to_string(), day(2026, 7, 20), 9),
    ]);
    assert!(snapshot.stale_global.is_empty());
    assert_eq!(snapshot.stale_links, vec![("xyz".to_string(), day(2026, 7, 20))]);
    assert_eq!(snapshot.last_clicked_at.len(), 1);
}

#[test]
fn rehydration_writes_global_then_link_buckets() {
    let data = RehydrationData {
        global_daily: vec![GlobalDailyStats { day: day(2026, 8, 1), clicks: 10 }],
        link_daily: vec![LinkDailyStats { short_code: "abc".to_string(), day: day(2026, 8, 2), clicks: 4 }],
    };
    let calls = rehydration_writes(&data);
    assert_eq!(calls.len(), 2);
    assert_eq!(calls[0].keys, vec!["stats:global"]);
    assert_eq!(calls[0].args, vec!["2026-08-01", "10"]);
    assert_eq!(calls[1].keys, vec!["stats:link:abc"]);
    assert_eq!(calls[1].args, vec!["2026-08-02", "4"]);
}

#[test]
fn rehydrated_counts_read_back_unchanged() {
    let data = RehydrationData {
        global_daily: vec![GlobalDailyStats { day: day(2026, 8, 1), clicks: 123 }],
        link_daily: vec![],
    };
    let calls = rehydration_writes(&data);
    let written = fields(&[(calls[0].args[0].as_str(), calls[0].args[1].as_str())]);
    let (read, malformed) = parse_daily_counts(written);
    assert!(malformed.is_empty());
    assert_eq!(read, data.global_daily);
}

fn link(code: &str, d: i32, clicks: i64) -> LinkDailyStats {
    LinkDailyStats { short_code: code.to_string(), day: d, clicks }
}

#[test]
fn merge_plan_commits_the_larger_counts_and_sums_gains() {
    let d1 = day(2026, 8, 1);
    let d2 = day(2026, 8, 2);
    let snapshot = RedisSnapshot {
        global_daily: vec![GlobalDailyStats { day: d1, clicks: 10 }, GlobalDailyStats { day: d2, clicks: 4 }],
        link_daily: vec![link("abc", d1, 6), link("abc", d2, 2), link("xyz", d1, 4)],
        last_clicked_at: vec![
            LastClick { short_code: "abc".to_string(), at_millis: 100 },
            LastClick { short_code: "zzz".to_string(), at_millis: 200 },
        ],
        stale_global: vec![],
        stale_links: vec![],
    };
    let existing_global = vec![GlobalDailyStats { day: d1, clicks: 7 }, GlobalDailyStats { day: d2, clicks: 9 }];
    let existing_links = vec![link("abc", d1, 5), link("xyz", d1, 4)];
    let plan = plan_merge(&snapshot, &existing_global, &existing_links);
    assert_eq!(plan.outcome.committed_global, vec![
        GlobalDailyStats { day: d1, clicks: 10 },
        GlobalDailyStats { day: d2, clicks: 9 }
    ]);
    assert_eq!(plan.outcome.global_delta, 3);
    let committed: Vec<i64> = plan.outcome.committed_links.iter().map(|l| l.clicks).collect();
    assert_eq!(committed, vec![6, 2, 4]);
    let mut deltas: Vec<(String, i64)> =
        plan.outcome.link_deltas.iter().map(|d| (d.short_code.clone(), d.delta)).collect();
    deltas.sort();
    assert_eq!(deltas, vec![("abc".to_string(), 3), ("xyz".to_string(), 0)]);
    let mut updates: Vec<(String, i64, i64)> =
        plan.link_updates.iter().map(|u| (u.short_code.clone(), u.delta, u.last_clicked_at)).collect();
    updates.sort();
    assert_eq!(updates, vec![("abc".to_string(), 3, 100), ("zzz".to_string(), 0, 200)]);
}

#[test]
fn merging_the_same_snapshot_again_gains_nothing() {
    let d1 = day(2026, 8, 1);
    let snapshot = RedisSnapshot {
        global_daily: vec![GlobalDailyStats { day: d1, clicks: 10 }],
        link_daily: vec![link("abc", d1, 6)],
        last_clicked_at: vec![],
        stale_global: vec![],
        stale_links: vec![],
    };
    let first = plan_merge(&snapshot, &vec![GlobalDailyStats { day: d1, clicks: 2 }], &vec![]);
    assert_eq!(first.outcome.global_delta, 8);
    let second = plan_merge(&snapshot, &first.outcome.committed_global, &first.outcome.committed_links);
    assert_eq!(second.outcome.global_delta, 0);
    assert!(second.outcome.link_deltas.iter().all(|d| d.delta == 0));
    assert!(second.link_updates.is_empty());
    assert_eq!(second.outcome.committed_global, first.outcome.committed_global);
    let rows = |v: &Vec<LinkDailyStats>| v.iter().map(|l| (l.short_code.clone(), l.day, l.clicks)).collect::<Vec<_>>();
    assert_eq!(rows(&second.outcome.committed_links), rows(&first.outcome.committed_links));
}

#[test]
fn merge_fits_exactly_when_no_sum_overflows() {
    let d1 = day(2026, 8, 1);
    let d2 = day(2026, 8, 2);
    let snapshot = |g: Vec<GlobalDailyStats>, l: Vec<LinkDailyStats>| RedisSnapshot {
        global_daily: g,
        link_daily: l,
        last_clicked_at: vec![],
        stale_global: vec![],
        stale_links: vec![],
    };
    // a negative committed count merges as long as the gain fits
    let s = snapshot(vec![GlobalDailyStats { day: d1, clicks: 5 }], vec![link("abc", d1, 5)]);
    assert!(merge_fits_check(&s, &vec![GlobalDailyStats { day: d1, clicks: -5 }], &vec![link("abc", d1, -1)]));
    // a single bucket whose gain exceeds i64::MAX
    let s = snapshot(vec![GlobalDailyStats { day: d1, clicks: i64::MAX }], vec![]);
    assert!(!merge_fits_check(&s, &vec![GlobalDailyStats { day: d1, clicks: -1 }], &vec![]));
    // two buckets whose gains fit alone but not together
    let s = snapshot(
        vec![GlobalDailyStats { day: d1, clicks: i64::MAX }, GlobalDailyStats { day: d2, clicks: 1 }],
        vec![],
    );
    assert!(!merge_fits_check(&s, &vec![], &vec![]));
    // one link's total gain overflows, though each bucket fits
    let s = snapshot(vec![], vec![link("abc", d1, i64::MAX), link("abc", d2, 1)]);
    assert!(!merge_fits_check(&s, &vec![], &vec![]));
    // the same gains spread over two links fit
    let s = snapshot(vec![], vec![link("abc", d1, i64::MAX), link("xyz", d2, 1)]);
    assert!(merge_fits_check(&s, &vec![], &vec![]));
}

#[test]
fn merge_without_link_buckets_updates_no_link() {
    let snapshot = RedisSnapshot {
        global_daily: vec![],
        link_daily: vec![],
        last_clicked_at: vec![LastClick { short_code: "abc".to_string(), at_millis: 1 }],
        stale_global: vec![],
        stale_links: vec![],
    };
    let plan = plan_merge(&snapshot, &vec![], &vec![]);
    assert_eq!(plan.outcome.global_delta, 0);
    assert!(plan.link_updates.is_empty());
}

fn analytics_config() -> AnalyticsConfig {
    AnalyticsConfig::from(AppConfig::default())
}

#[test]
fn consumer_settings_are_checked_in_order() {
    let config = analytics_config();
    assert!(check_config(&config).is_ok());
    let mut c = analytics_config();
    c.analytics.read_batch_size = 0;
    assert_eq!(check_config(&c), Err(ConsumerSettingError::ReadBatchSize));
    let mut c = analytics_config();
    c.analytics.read_block = TimeSpan::from_millis(501);
    assert_eq!(check_config(&c), Err(ConsumerSettingError::ReadBlock));
    assert_eq!(check_config(&c).unwrap_err().message(), "analytics.read_block_millis must be between 1 and 500");
    let mut c = analytics_config();
    c.analytics.read_block = TimeSpan::from_nanos(999_999);
    assert_eq!(check_config(&c), Err(ConsumerSettingError::ReadBlock));
    let mut c = analytics_config();
    c.analytics.flush_interval = TimeSpan::zero();
    assert_eq!(check_config(&c), Err(ConsumerSettingError::FlushInterval));
}

#[test]
fn stream_read_uses_the_settings() {
    let read = stream_read(&analytics_config());
    assert_eq!(read.group, CONSUMER_GROUP);
    assert_eq!(read.consumer, CONSUMER_NAME);
    assert_eq!(read.count, 100);
    assert_eq!(read.block_millis, 250);
}

#[test]
fn entries_are_recorded_or_dropped() {
    let event = ClickEvent { short_code: "abc".to_string(), at_millis: 0 };
    assert!(matches!(entry_action("Events", "1-0", Some(event)), EntryAction::Record(_)));
    assert!(matches!(entry_action("Events", "1-0", None), EntryAction::Drop));
    let far = ClickEvent { short_code: "abc".to_string(), at_millis: i64::MAX };
    assert!(matches!(entry_action("Events", "1-0", Some(far)), EntryAction::Drop));
}

#[test]
fn consumer_group_creation() {
    assert_eq!(group_creation(None), GroupCreation::Created);
    assert_eq!(
        group_creation(Some("BUSYGROUP Consumer Group name already exists")),
        GroupCreation::AlreadyExists
    );
    assert_eq!(group_creation(Some("ERR unknown command")), GroupCreation::Failed);
}

#[test]
fn draining_stops_at_an_empty_batch() {
    let mut progress = DrainProgress::new();
    assert!(progress.wants_batch(false));
    assert!(!progress.wants_batch(true));
    assert!(progress.after_batch(5));
    assert!(progress.after_batch(2));
    assert!(!progress.after_batch(0));
    assert_eq!(progress.total(), 7);
}

#[test]
fn loop_checks_shutdown_then_flush_then_read() {
    assert_eq!(loop_action(true, true, Some(ReadResult::Entries)), LoopAction::Stop);
    assert_eq!(loop_action(false, true, Some(ReadResult::Entries)), LoopAction::Flush);
    assert_eq!(loop_action(false, false, Some(ReadResult::Entries)), LoopAction::Process);
    assert_eq!(loop_action(false, false, Some(ReadResult::Failed)), LoopAction::Backoff);
    assert_eq!(loop_action(false, false, Some(ReadResult::Empty)), LoopAction::Continue);
    assert_eq!(loop_action(false, false, None), LoopAction::Continue);
}

#[test]
fn click_buffer_counts_per_link() {
    let mut buffer = ClickBuffer::new();
    assert!(buffer.is_empty());
    buffer.record(ClickEvent { short_code: "a".to_string(), at_millis: 5 });
    buffer.record(ClickEvent { short_code: "b".to_string(), at_millis: 7 });
    buffer.record(ClickEvent { short_code: "a".to_string(), at_millis: 3 });
    buffer.record(ClickEvent { short_code: "a".to_string(), at_millis: 9 });
    let (entries, total) = buffer.drain();
    let seen: Vec<(&str, i64, i64)> =
        entries.iter().map(|e| (e.short_code.as_str(), e.count, e.last_clicked_at)).collect();
    assert_eq!(seen, vec![("a", 3, 9), ("b", 1, 7)]);
    assert_eq!(total, 4);
    assert!(buffer.is_empty());
}

#[test]
fn trim_splits_stale_fields_from_kept_buckets() {
    let (stale, kept) = split_link_hash(
        "stats:abc",
        &fields(&[("2026-07-01", "3"), ("2026-08-05", "4")]),
        i64::from(day(2026, 8, 1)),
    )
    .unwrap();
    assert_eq!(stale, vec!["2026-07-01"]);
    assert_eq!(kept.len(), 1);
    assert_eq!((kept[0].short_code.as_str(), kept[0].day, kept[0].clicks), ("abc", day(2026, 8, 5), 4));
}

#[test]
fn trim_fails_on_an_unreadable_field() {
    let err = split_link_hash("stats:abc", &fields(&[("someday", "3")]), 0).unwrap_err();
    assert!(matches!(err, TrimError::InvalidDate { field } if field == "someday"));
    let err = split_link_hash("stats:abc", &fields(&[("2026-08-01", "many")]), 0).unwrap_err();
    assert!(matches!(err, TrimError::InvalidCount { field, value } if field == "2026-08-01" && value == "many"));
}
