//! The link service: creating, resolving and deleting short links, and
//! keeping their cached targets in Redis.

pub mod cache;
pub mod clock;
pub mod codes;
pub mod service;
