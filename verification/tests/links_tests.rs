use std::collections::HashMap;

use chrono::Utc;

use kurlyk::db::{is_unique_violation, DbError, SqlFailure, SqlFailureKind};
use kurlyk::links::cache::{cache_command, CacheCommand, CacheOp};
use kurlyk::links::clock::{instant_nanos, now_nanos};
use kurlyk::links::codes::{random_string, ShortCodeSearch, SHORT_CODE_LEN};
use kurlyk::links::service::{
    cache_ttl_at, calculate_cache_ttl, check_expiration, code_search_failed, create_link_outcome,
    delete_link_outcome, get_link_outcome, Link,
};
use kurlyk::redis_keys::RedisKeys;
use kurlyk::status::{ServiceStatus, StatusCode};
use kurlyk::time::TimeSpan;

const SECOND: i128 = 1_000_000_000;

/// An in-memory link repository, as the service's tests use.
#[derive(Default)]
struct FakeLinkRepository {
    links: HashMap<String, Link>,
    fail_exists_count: usize,
}

impl FakeLinkRepository {
    fn link_exists(&mut self, code: &str) -> Result<bool, DbError> {
        if self.fail_exists_count > 0 {
            self.fail_exists_count -= 1;
            return Ok(true);
        }
        Ok(self.links.contains_key(code))
    }

    fn create_link(&mut self, code: &str, target: &str, expiration: Option<i128>) -> Result<(), DbError> {
        if self.links.contains_key(code) {
            return Err(DbError::Conflict(SqlFailure {
                kind: SqlFailureKind::Database { code: Some("23505".to_string()), unique_violation: true },
                message: "duplicate key".to_string(),
            }));
        }
        self.links.insert(code.to_string(), Link { target: target.to_string(), expiration });
        Ok(())
    }

    fn get_link(&self, code: &str) -> Result<Link, DbError> {
        self.links.get(code).cloned().ok_or(DbError::NotFound)
    }

    fn delete_link(&mut self, code: &str) -> Result<(), DbError> {
        match self.links.remove(code) {
            Some(_) => Ok(()),
            None => Err(DbError::NotFound),
        }
    }
}

fn now() -> i128 {
    let now = Utc::now();
    instant_nanos(now.timestamp(), now.timestamp_subsec_nanos())
}

fn cache_ttl() -> TimeSpan {
    TimeSpan::from_secs(3600)
}

fn generate_short_code(repo: &mut FakeLinkRepository) -> Option<String> {
    let mut search = ShortCodeSearch::new();
    while let Some(code) = search.next_candidate() {
        if ShortCodeSearch::accepts(&repo.link_exists(&code)) {
            return Some(code);
        }
    }
    None
}

/// Creates a link as the service does: a code is generated when none is
/// given, the expiry is checked, the link stored, and its target cached.
fn create_link(
    repo: &mut FakeLinkRepository,
    short_code: Option<&str>,
    target: &str,
    expiration: Option<i128>,
) -> Result<(String, Option<CacheOp>), ServiceStatus> {
    let code = match short_code {
        Some(code) => code.to_string(),
        None => generate_short_code(repo).ok_or_else(code_search_failed)?,
    };
    let now = now();
    check_expiration(expiration, now)?;
    let stored = repo.create_link(&code, target, expiration);
    create_link_outcome(code, target.to_string(), expiration, cache_ttl(), now, stored)
}

#[test]
fn test_create_link_generates_code_and_emits_cache() {
    let mut repo = FakeLinkRepository::default();
    let (code, op) = create_link(&mut repo, None, "https://example.com", None).unwrap();
    assert_eq!(code.len(), 6);
    match op.unwrap() {
        CacheOp::Store { key, value, .. } => {
            assert_eq!(key, code);
            assert_eq!(value, "https://example.com");
        }
        _ => panic!("Expected CacheOp::Set"),
    }
}

#[test]
fn test_create_link_specific_code() {
    let mut repo = FakeLinkRepository::default();
    let (code, op) = create_link(&mut repo, Some("custom123"), "https://example.com/custom", None).unwrap();
    assert_eq!(code, "custom123");
    match op.unwrap() {
        CacheOp::Store { key, value, .. } => {
            assert_eq!(key, "custom123");
            assert_eq!(value, "https://example.com/custom");
        }
        _ => panic!("Expected CacheOp::Set"),
    }
}

#[test]
fn test_create_link_expired() {
    let mut repo = FakeLinkRepository::default();
    let past = now() - 60 * SECOND;
    let err = create_link(&mut repo, Some("expired1"), "https://example.com", Some(past)).unwrap_err();
    assert_eq!(err.code, StatusCode::InvalidArgument);
    assert!(repo.links.is_empty());
}

#[test]
fn test_create_link_duplicate() {
    let mut repo = FakeLinkRepository::default();
    repo.create_link("dup123", "https://example.com", None).unwrap();
    let err = create_link(&mut repo, Some("dup123"), "https://example.com/new", None).unwrap_err();
    assert_eq!(err.code, StatusCode::AlreadyExists);
    assert_eq!(repo.links["dup123"].target, "https://example.com");
}

#[test]
fn test_get_link_valid() {
    let mut repo = FakeLinkRepository::default();
    repo.create_link("valid123", "https://example.com/valid", None).unwrap();
    let (target, op) =
        get_link_outcome("valid123".to_string(), repo.get_link("valid123"), cache_ttl(), now()).unwrap();
    assert_eq!(target, "https://example.com/valid");
    match op.unwrap() {
        CacheOp::Store { key, value, .. } => {
            assert_eq!(key, "valid123");
            assert_eq!(value, "https://example.com/valid");
        }
        _ => panic!("Expected CacheOp::Set"),
    }
}

#[test]
fn test_get_link_expired() {
    let mut repo = FakeLinkRepository::default();
    let expired_at = now() - 10 * SECOND;
    repo.create_link("exp123", "https://example.com/exp", Some(expired_at)).unwrap();
    let err = get_link_outcome("exp123".to_string(), repo.get_link("exp123"), cache_ttl(), now()).unwrap_err();
    assert_eq!(err.code, StatusCode::FailedPrecondition);
    assert_eq!(err.message, "Link has expired");
}

#[test]
fn test_get_link_not_found() {
    let repo = FakeLinkRepository::default();
    let err = get_link_outcome("missing".to_string(), repo.get_link("missing"), cache_ttl(), now()).unwrap_err();
    assert_eq!(err.code, StatusCode::NotFound);
}

#[test]
fn test_delete_link_valid() {
    let mut repo = FakeLinkRepository::default();
    repo.create_link("del123", "https://example.com/del", None).unwrap();
    let op = delete_link_outcome("del123".to_string(), repo.delete_link("del123")).unwrap();
    match op {
        CacheOp::Del { key } => assert_eq!(key, "del123"),
        _ => panic!("Expected CacheOp::Del"),
    }
}

#[test]
fn test_delete_link_not_found() {
    let mut repo = FakeLinkRepository::default();
    let err = delete_link_outcome("absent".to_string(), repo.delete_link("absent")).unwrap_err();
    assert_eq!(err.code, StatusCode::NotFound);
    assert!(repo.links.is_empty());
}

#[test]
fn test_generate_short_code_retry() {
    let mut repo = FakeLinkRepository { fail_exists_count: 2, ..Default::default() };
    let code = generate_short_code(&mut repo).unwrap();
    assert_eq!(code.len(), 6);
}

#[test]
fn short_code_search_gives_up_after_ten_tries() {
    let mut repo = FakeLinkRepository { fail_exists_count: 100, ..Default::default() };
    assert_eq!(generate_short_code(&mut repo), None);
    assert_eq!(repo.fail_exists_count, 90);
    assert_eq!(code_search_failed().message, "Failed to generate a unique short code");
}

#[test]
fn short_code_check_must_succeed() {
    assert!(ShortCodeSearch::accepts(&Ok(false)));
    assert!(!ShortCodeSearch::accepts(&Ok(true)));
    assert!(!ShortCodeSearch::accepts(&Err(DbError::NotFound)));
}

#[test]
fn random_strings_are_alphanumeric() {
    let s = random_string(64).unwrap();
    assert_eq!(s.len(), 64);
    assert!(s.chars().all(|c| c.is_ascii_alphanumeric()));
    assert_eq!(random_string(SHORT_CODE_LEN).unwrap().len(), 6);
    assert_eq!(random_string(0).unwrap(), "");
}

#[test]
fn cache_ttl_uses_configured_ttl_without_expiration() {
    let configured_ttl = TimeSpan::from_secs(60);
    assert_eq!(calculate_cache_ttl(configured_ttl, None), Some(configured_ttl));
}

#[test]
fn cache_ttl_is_capped_by_expiration() {
    let configured_ttl = TimeSpan::from_secs(60);
    let expiration = now() + 5 * SECOND;
    let ttl = calculate_cache_ttl(configured_ttl, Some(expiration)).expect("expiration should be cacheable");
    assert!(ttl.le(&TimeSpan::from_secs(5)));
}

#[test]
fn cache_ttl_does_not_cache_expired_links() {
    let expiration = now() - SECOND;
    assert_eq!(calculate_cache_ttl(TimeSpan::from_secs(60), Some(expiration)), None);
}

#[test]
fn cache_ttl_at_fixed_instants() {
    let ttl = TimeSpan::from_secs(60);
    assert_eq!(cache_ttl_at(ttl, Some(10 * SECOND), 0), Some(TimeSpan::from_secs(10)));
    assert_eq!(cache_ttl_at(ttl, Some(100 * SECOND), 0), Some(ttl));
    assert_eq!(cache_ttl_at(ttl, Some(SECOND / 2), 0), None);
    assert_eq!(cache_ttl_at(TimeSpan::from_millis(999), None, 0), None);
    assert_eq!(cache_ttl_at(ttl, Some(i128::MAX), -SECOND), Some(ttl));
}

#[test]
fn expiry_must_lie_in_the_future() {
    assert!(check_expiration(None, 0).is_ok());
    assert!(check_expiration(Some(1), 0).is_ok());
    let err = check_expiration(Some(0), 0).unwrap_err();
    assert_eq!((err.code, err.message), (StatusCode::InvalidArgument, "Expiration must be in the future"));
}

#[test]
fn repository_errors_become_refusals() {
    let other = DbError::Other(SqlFailure { kind: SqlFailureKind::Other, message: "boom".to_string() });
    let err = create_link_outcome("a".to_string(), "t".to_string(), None, cache_ttl(), 0, Err(other)).unwrap_err();
    assert_eq!((err.code, err.message), (StatusCode::Internal, "Failed to create link"));
    let err = get_link_outcome("a".to_string(), Err(DbError::Transient(SqlFailure {
        kind: SqlFailureKind::Io,
        message: "reset".to_string(),
    })), cache_ttl(), 0)
    .unwrap_err();
    assert_eq!((err.code, err.message), (StatusCode::Internal, "Failed to get link"));
    let err = delete_link_outcome("a".to_string(), Err(DbError::Other(SqlFailure {
        kind: SqlFailureKind::Other,
        message: "boom".to_string(),
    })))
    .unwrap_err();
    assert_eq!((err.code, err.message), (StatusCode::Internal, "Failed to delete link"));
}

#[test]
fn short_lived_links_are_not_cached() {
    let now = now();
    let (_, op) = create_link_outcome(
        "a".to_string(),
        "t".to_string(),
        Some(now + SECOND / 2),
        cache_ttl(),
        now,
        Ok(()),
    )
    .unwrap();
    assert!(op.is_none());
}

#[test]
fn cache_commands() {
    let set = CacheOp::Store { key: "abc".to_string(), value: "https://x".to_string(), ttl: TimeSpan::from_millis(2500) };
    match cache_command(&set) {
        CacheCommand::SetEx { key, value, seconds } => {
            assert_eq!(key, RedisKeys::link_cache_key("abc"));
            assert_eq!(key, "cache:abc");
            assert_eq!(value, "https://x");
            assert_eq!(seconds, 2);
        }
        other => panic!("unexpected {other:?}"),
    }
    let short = CacheOp::Store { key: "abc".to_string(), value: "x".to_string(), ttl: TimeSpan::from_millis(999) };
    assert!(matches!(cache_command(&short), CacheCommand::Skip));
    assert!(matches!(cache_command(&CacheOp::Del { key: "abc".to_string() }), CacheCommand::Del { key } if key == "cache:abc"));
}

#[test]
fn database_failures_are_classified() {
    let fail = |kind| SqlFailure { kind, message: "m".to_string() };
    let db = |code: Option<&str>, unique| SqlFailureKind::Database { code: code.map(str::to_string), unique_violation: unique };
    assert!(matches!(DbError::from(fail(SqlFailureKind::RowNotFound)), DbError::NotFound));
    assert!(DbError::from(fail(SqlFailureKind::PoolTimedOut)).is_transient());
    assert!(DbError::from(fail(SqlFailureKind::Io)).is_transient());
    assert!(matches!(DbError::from(fail(db(Some("23505"), true))), DbError::Conflict(_)));
    assert!(DbError::from(fail(db(Some("08006"), false))).is_transient());
    assert!(DbError::from(fail(db(Some("40001"), false))).is_transient());
    assert!(DbError::from(fail(db(Some("40P01"), false))).is_transient());
    assert!(DbError::from(fail(db(Some("57P03"), false))).is_transient());
    assert!(matches!(DbError::from(fail(db(Some("42601"), false))), DbError::Other(_)));
    assert!(matches!(DbError::from(fail(db(None, false))), DbError::Other(_)));
    assert!(matches!(DbError::from(fail(SqlFailureKind::Other)), DbError::Other(_)));
    assert!(is_unique_violation(&fail(db(None, true))));
    assert!(!is_unique_violation(&fail(SqlFailureKind::Io)));
    assert_eq!(DbError::from(fail(SqlFailureKind::Io)).message(), "transient: m");
    assert_eq!(DbError::from(fail(db(None, true))).message(), "unique violation: m");
    assert_eq!(DbError::NotFound.message(), "not found");
    assert_eq!(DbError::from(fail(SqlFailureKind::Other)).message(), "m");
}

#[test]
fn clock_reads_the_current_instant() {
    let before = now();
    let at = now_nanos();
    let after = now();
    assert!(before <= at && at <= after);
    assert_eq!(instant_nanos(-1, 500_000_000), -500_000_000);
}
