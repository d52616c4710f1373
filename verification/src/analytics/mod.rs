//! The analytics service: click statistics kept in Redis day-buckets and
//! merged into Postgres.

pub mod dates;
pub mod snapshot;
pub mod merge;
pub mod redis_keys;
pub mod redis_stats;
pub mod persistence;
pub mod consumer;
pub mod service;
pub mod click_counter;
pub mod trim;
