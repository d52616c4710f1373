use kurlyk::config::LoggingConfig;
use kurlyk::connections::{connection_failed_message, connection_jitter};
use kurlyk::logging::get_endpoint;
use kurlyk::redis_keys::RedisKeys;
use kurlyk::retry::backoff_strategy::jitter::JitterTy;
use kurlyk::text::{contains_str, i64_to_decimal, is_blank_str, parse_i64, starts_with, strip_prefix, u64_to_decimal};

#[test]
fn integers_parse_as_str_parse_does() {
    assert_eq!(parse_i64("42"), Some(42));
    assert_eq!(parse_i64("+7"), Some(7));
    assert_eq!(parse_i64("-9223372036854775808"), Some(i64::MIN));
    assert_eq!(parse_i64("9223372036854775808"), None);
    assert_eq!(parse_i64(""), None);
    assert_eq!(parse_i64("-"), None);
    assert_eq!(parse_i64("1 "), None);
    assert_eq!(parse_i64("0x10"), None);
}

#[test]
fn decimal_rendering_reads_back() {
    for v in [0, 1, -1, 42, i64::MAX, i64::MIN, 1_700_000_000_000] {
        assert_eq!(i64_to_decimal(v), v.to_string());
        assert_eq!(parse_i64(&i64_to_decimal(v)), Some(v));
    }
    assert_eq!(u64_to_decimal(u64::MAX), u64::MAX.to_string());
}

#[test]
fn prefixes_and_substrings() {
    assert!(starts_with("stats:link:abc", "stats:link:"));
    assert!(!starts_with("stats", "stats:link:"));
    assert_eq!(strip_prefix("stats:link:abc", "stats:link:"), Some("abc".to_string()));
    assert_eq!(strip_prefix("cache:abc", "stats:link:"), None);
    assert!(contains_str("BUSYGROUP exists", "BUSYGROUP"));
    assert!(!contains_str("BUSY", "BUSYGROUP"));
    assert!(is_blank_str(" \t\n"));
    assert!(!is_blank_str(" x "));
}

#[test]
fn redis_key_layout() {
    assert_eq!(RedisKeys::stats_key("x"), "stats:x");
    assert_eq!(RedisKeys::global_stats_key(), "stats:global");
    assert_eq!(RedisKeys::link_stats_key("abc"), "stats:link:abc");
    assert_eq!(RedisKeys::link_cache_key("abc"), "cache:abc");
    assert_eq!(RedisKeys::link_last_clicked_at_key("abc"), "stats:last_clicked_at:abc");
}

#[test]
fn telemetry_endpoint_defaults_to_alloy() {
    let mut config = LoggingConfig::default();
    config.otlp_endpoint = None;
    assert_eq!(get_endpoint(&config), "http://alloy:4317");
    config.otlp_endpoint = Some("http://collector:4317".to_string());
    assert_eq!(get_endpoint(&config), "http://collector:4317");
}

#[test]
fn connection_messages() {
    assert_eq!(connection_failed_message("Redis", "refused"), "Failed to connect to Redis: refused");
    assert_eq!(connection_jitter(), JitterTy::Equal);
}
