//! What the link service answers: the checks on a new link, the time a
//! target may stay cached, and the reply and cache operation that follow
//! each call of the link repository.

use vstd::prelude::*;
use vstd::string::*;

use crate::db::DbError;
use crate::links::cache::CacheOp;
use crate::links::clock::now_nanos;
use crate::status::{refuses, ServiceStatus, StatusCode};
use crate::time::{TimeSpan, NANOS_PER_SEC};

verus! {

/// A stored link: its target and, when it expires, the instant of expiry
/// in nanoseconds since the Unix epoch.
#[derive(Debug, Clone)]
pub struct Link {
    pub target: String,
    pub expiration: Option<i128>,
}

/// How long a target may stay cached: the configured time, or the time left
/// before expiry when that is shorter; nothing once the link has expired,
/// and nothing when that is less than a second.
pub open spec fn cache_ttl_spec(cache_ttl: nat, expiration: Option<int>, now: int) -> Option<nat> {
    let ttl = match expiration {
        None => Some(cache_ttl),
        Some(e) => if e - now < 0 {
            None
        } else if e - now <= cache_ttl {
            Some((e - now) as nat)
        } else {
            Some(cache_ttl)
        },
    };
    match ttl {
        Some(t) => if t >= NANOS_PER_SEC {
            Some(t)
        } else {
            None
        },
        None => None,
    }
}

pub open spec fn int_opt(e: Option<i128>) -> Option<int> {
    match e {
        Some(v) => Some(v as int),
        None => None,
    }
}

pub open spec fn span_views(t: Option<TimeSpan>) -> Option<nat> {
    match t {
        Some(s) => Some(s@),
        None => None,
    }
}

/// A cached target never outlives its link nor the configured time, it is
/// cached for a second at least, and a link that expires within a second
/// (or has expired) is not cached at all.
pub proof fn cache_ttl_bounds(cache_ttl: nat, expiration: Option<int>, now: int)
    ensures
        match cache_ttl_spec(cache_ttl, expiration, now) {
            Some(t) => NANOS_PER_SEC <= t <= cache_ttl && match expiration {
                Some(e) => now + t <= e,
                None => true,
            },
            None => true,
        },
        match expiration {
            Some(e) => e < now + NANOS_PER_SEC ==> cache_ttl_spec(cache_ttl, expiration, now) is None,
            None => true,
        },
{
}

/// How long a target may stay cached at the instant `now`.
pub fn cache_ttl_at(cache_ttl: TimeSpan, expiration: Option<i128>, now: i128) -> (ttl: Option<TimeSpan>)
    ensures
        span_views(ttl) == cache_ttl_spec(cache_ttl@, int_opt(expiration), now as int),
{
    let ttl_nanos = cache_ttl.as_nanos();
    let ttl = match expiration {
        None => Some(cache_ttl),
        Some(e) => if e < now {
            None
        } else {
            match e.checked_sub(now) {
                Some(d) => {
                    let left = d as u128;
                    if left <= ttl_nanos {
                        Some(TimeSpan::from_nanos(left))
                    } else {
                        Some(cache_ttl)
                    }
                },
                None => Some(cache_ttl),
            }
        },
    };
    match ttl {
        Some(t) => if t.as_secs() > 0 {
            Some(t)
        } else {
            None
        },
        None => None,
    }
}

/// How long a target may stay cached from now: the configured time, or the
/// time left before expiry when that is shorter, and nothing when that is
/// less than a second.
pub fn calculate_cache_ttl(cache_ttl: TimeSpan, expiration: Option<i128>) -> (ttl: Option<TimeSpan>)
    ensures
        expiration is None ==> span_views(ttl) == cache_ttl_spec(cache_ttl@, None, 0),
        expiration matches Some(e) ==> exists|now: int|
            span_views(ttl) == #[trigger] cache_ttl_spec(cache_ttl@, Some(e as int), now),
        ttl matches Some(t) ==> NANOS_PER_SEC <= t@ <= cache_ttl@,
{
    let now = now_nanos();
    let ttl = cache_ttl_at(cache_ttl, expiration, now);
    assert(span_views(ttl) == cache_ttl_spec(cache_ttl@, int_opt(expiration), now as int));
    ttl
}

/// Refuses an expiry that is not in the future.
pub fn check_expiration(expiration: Option<i128>, now: i128) -> (r: Result<(), ServiceStatus>)
    ensures
        match expiration {
            Some(e) if e <= now => r matches Err(s) && refuses(
                s,
                StatusCode::InvalidArgument,
                "Expiration must be in the future"@,
            ),
            _ => r is Ok,
        },
{
    match expiration {
        Some(e) => if e <= now {
            Err(ServiceStatus { code: StatusCode::InvalidArgument, message: "Expiration must be in the future" })
        } else {
            Ok(())
        },
        None => Ok(()),
    }
}

/// The refusal when no unused short code was found.
pub fn code_search_failed() -> (s: ServiceStatus)
    ensures
        refuses(s, StatusCode::Internal, "Failed to generate a unique short code"@),
{
    ServiceStatus { code: StatusCode::Internal, message: "Failed to generate a unique short code" }
}

/// `op` caches `value` as the target of `key` for `ttl` nanoseconds.
pub open spec fn caches(op: CacheOp, key: Seq<char>, value: Seq<char>, ttl: nat) -> bool {
    op matches CacheOp::Store { key: k, value: v, ttl: t } && k@ == key && v@ == value && t@ == ttl
}

/// `op` is the caching owed for a link with the given target and expiry:
/// a cache entry when `cache_ttl_spec` grants a time, none otherwise.
pub open spec fn cache_owed(
    op: Option<CacheOp>,
    key: Seq<char>,
    value: Seq<char>,
    cache_ttl: nat,
    expiration: Option<int>,
    now: int,
) -> bool {
    match cache_ttl_spec(cache_ttl, expiration, now) {
        Some(t) => op matches Some(o) && caches(o, key, value, t),
        None => op is None,
    }
}

/// The reply to the creation of `short_code` → `target`, once the repository
/// answered `stored`: a unique-constraint conflict is refused as existing
/// already, another error as internal; a stored link returns its code and
/// caches its target when `cache_ttl_at` grants a time.
pub fn create_link_outcome(
    short_code: String,
    target: String,
    expiration: Option<i128>,
    cache_ttl: TimeSpan,
    now: i128,
    stored: Result<(), DbError>,
) -> (r: Result<(String, Option<CacheOp>), ServiceStatus>)
    ensures
        match stored {
            Err(DbError::Conflict(_)) => r matches Err(s) && refuses(s, StatusCode::AlreadyExists, "Short code already exists"@),
            Err(_) => r matches Err(s) && refuses(s, StatusCode::Internal, "Failed to create link"@),
            Ok(()) => r matches Ok((code, op)) && code@ == short_code@ && cache_owed(
                op,
                short_code@,
                target@,
                cache_ttl@,
                int_opt(expiration),
                now as int,
            ),
        },
{
    match stored {
        Err(DbError::Conflict(_)) => Err(
            ServiceStatus { code: StatusCode::AlreadyExists, message: "Short code already exists" },
        ),
        Err(_) => Err(ServiceStatus { code: StatusCode::Internal, message: "Failed to create link" }),
        Ok(()) => {
            let op = match cache_ttl_at(cache_ttl, expiration, now) {
                Some(ttl) => Some(CacheOp::Store { key: short_code.clone(), value: target, ttl }),
                None => None,
            };
            Ok((short_code, op))
        },
    }
}

/// The reply to a lookup of `short_code`, once the repository answered
/// `found`: a missing link is refused as not found, another error as
/// internal, an expired link as failing its precondition; a live link
/// returns its target and caches it when `cache_ttl_at` grants a time.
pub fn get_link_outcome(short_code: String, found: Result<Link, DbError>, cache_ttl: TimeSpan, now: i128) -> (r: Result<
    (String, Option<CacheOp>),
    ServiceStatus,
>)
    ensures
        match found {
            Err(DbError::NotFound) => r matches Err(s) && refuses(s, StatusCode::NotFound, "Short code not found"@),
            Err(_) => r matches Err(s) && refuses(s, StatusCode::Internal, "Failed to get link"@),
            Ok(link) => match link.expiration {
                Some(e) if e <= now => r matches Err(s) && refuses(s, StatusCode::FailedPrecondition, "Link has expired"@),
                _ => r matches Ok((target, op)) && target@ == link.target@ && cache_owed(
                    op,
                    short_code@,
                    link.target@,
                    cache_ttl@,
                    int_opt(link.expiration),
                    now as int,
                ),
            },
        },
{
    match found {
        Err(DbError::NotFound) => Err(ServiceStatus { code: StatusCode::NotFound, message: "Short code not found" }),
        Err(_) => Err(ServiceStatus { code: StatusCode::Internal, message: "Failed to get link" }),
        Ok(link) => {
            let expired = match link.expiration {
                Some(e) => e <= now,
                None => false,
            };
            if expired {
                return Err(ServiceStatus { code: StatusCode::FailedPrecondition, message: "Link has expired" });
            }
            let op = match cache_ttl_at(cache_ttl, link.expiration, now) {
                Some(ttl) => Some(CacheOp::Store { key: short_code, value: link.target.clone(), ttl }),
                None => None,
            };
            Ok((link.target, op))
        },
    }
}

/// The reply to the deletion of `short_code`, once the repository answered
/// `deleted`: a missing link is refused as not found, another error as
/// internal; a deleted link drops its cached target.
pub fn delete_link_outcome(short_code: String, deleted: Result<(), DbError>) -> (r: Result<CacheOp, ServiceStatus>)
    ensures
        match deleted {
            Err(DbError::NotFound) => r matches Err(s) && refuses(s, StatusCode::NotFound, "Short code not found"@),
            Err(_) => r matches Err(s) && refuses(s, StatusCode::Internal, "Failed to delete link"@),
            Ok(()) => r matches Ok(CacheOp::Del { key }) && key@ == short_code@,
        },
{
    match deleted {
        Err(DbError::NotFound) => Err(ServiceStatus { code: StatusCode::NotFound, message: "Short code not found" }),
        Err(_) => Err(ServiceStatus { code: StatusCode::Internal, message: "Failed to delete link" }),
        Ok(()) => Ok(CacheOp::Del { key: short_code }),
    }
}

} // verus!
