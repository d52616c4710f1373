//! Verified core of a link-shortening service: configuration, retry policy,
//! Redis key layout, click-statistics snapshots and link request handling.

pub mod text;
pub mod time;
pub mod retry;
pub mod config;
pub mod redis_keys;
pub mod events;
pub mod db;
pub mod status;
pub mod logging;
pub mod connections;
pub mod analytics;
pub mod links;
