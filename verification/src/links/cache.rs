//! Operations on the cache of link targets kept in Redis.

use vstd::prelude::*;

use crate::redis_keys::{link_cache_key_spec, RedisKeys};
use crate::time::{TimeSpan, NANOS_PER_SEC};

verus! {

/// A change to the cache of link targets, keyed by short code.
#[derive(Debug)]
pub enum CacheOp {
    /// Cache `value` as the target of `key` for `ttl`.
    Store { key: String, value: String, ttl: TimeSpan },
    /// Forget the target of `key`.
    Del { key: String },
}

/// The Redis command that carries out a cache operation.
#[derive(Debug)]
pub enum CacheCommand {
    /// `SET key value EX seconds`.
    SetEx { key: String, value: String, seconds: u64 },
    /// `DEL key`.
    Del { key: String },
    /// Nothing to do.
    Skip,
}

/// The command for `op`: a target is cached under the link's cache key for
/// the whole seconds of its time to live, and not at all when that is less
/// than a second; a deletion removes the link's cache key.
pub fn cache_command(op: &CacheOp) -> (c: CacheCommand)
    ensures
        match op {
            CacheOp::Store { key, value, ttl } => if ttl@ >= NANOS_PER_SEC {
                c matches CacheCommand::SetEx { key: k, value: v, seconds } && k@ == link_cache_key_spec(key@) && v@
                    == value@ && seconds == ttl@ / (NANOS_PER_SEC as nat)
            } else {
                c is Skip
            },
            CacheOp::Del { key } => c matches CacheCommand::Del { key: k } && k@ == link_cache_key_spec(key@),
        },
{
    match op {
        CacheOp::Store { key, value, ttl } => {
            let seconds = ttl.as_secs();
            if seconds > 0 {
                CacheCommand::SetEx {
                    key: RedisKeys::link_cache_key(key.as_str()),
                    value: value.clone(),
                    seconds,
                }
            } else {
                CacheCommand::Skip
            }
        },
        CacheOp::Del { key } => CacheCommand::Del { key: RedisKeys::link_cache_key(key.as_str()) },
    }
}

} // verus!
