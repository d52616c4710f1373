//! The configuration of the three services and of what they share.

use vstd::prelude::*;
use vstd::string::*;

use crate::time::{TimeSpan, NANOS_PER_MILLI, NANOS_PER_SEC};

verus! {

#[derive(Debug, Clone)]
pub struct RedisConfig {
    pub host: String,
    pub port: u16,
    /// Read from `cache_ttl_secs`.
    pub cache_ttl: TimeSpan,
    pub streams: Streams,
}

impl Default for RedisConfig {
    fn default() -> (c: Self)
        ensures
            c.host@ == "localhost"@,
            c.port == 6379,
            c.cache_ttl@ == 300 * NANOS_PER_SEC,
            c.streams.events@ == "Events"@,
    {
        Self {
            host: String::from_str("localhost"),
            port: 6379,
            cache_ttl: TimeSpan::from_secs(300),
            streams: Streams::default(),
        }
    }
}

#[derive(Debug, Clone)]
pub struct Streams {
    pub events: String,
}

impl Default for Streams {
    fn default() -> (s: Self)
        ensures
            s.events@ == "Events"@,
    {
        Self { events: String::from_str("Events") }
    }
}

#[derive(Debug, Clone)]
pub struct DatabaseConfig {
    pub host: String,
    pub port: u16,
    pub user: String,
    pub password: String,
    pub db_name: String,
}

impl Default for DatabaseConfig {
    fn default() -> (c: Self)
        ensures
            c.host@ == "localhost"@,
            c.port == 5432,
            c.user@ == "postgres"@,
            c.password@ == "postgres"@,
            c.db_name@ == "kurlyk"@,
    {
        Self {
            host: String::from_str("localhost"),
            port: 5432,
            user: String::from_str("postgres"),
            password: String::from_str("postgres"),
            db_name: String::from_str("kurlyk"),
        }
    }
}

#[derive(Debug, Clone)]
pub struct LoggingConfig {
    pub level: String,
    pub enabled: bool,
    pub otlp_endpoint: Option<String>,
}

impl Default for LoggingConfig {
    fn default() -> (c: Self)
        ensures
            c.level@ == "info"@,
            !c.enabled,
            c.otlp_endpoint matches Some(e) && e@ == "http://alloy:4317"@,
    {
        Self {
            level: String::from_str("info"),
            enabled: false,
            otlp_endpoint: Some(String::from_str("http://alloy:4317")),
        }
    }
}

#[derive(Debug, Clone)]
pub struct ServiceAddress {
    pub scheme: Option<String>,
    pub host: String,
    pub port: u16,
}

#[derive(Debug, Clone)]
pub struct RedisAddress {
    pub host: String,
    pub port: u16,
}

#[derive(Debug, Clone)]
pub struct GatewayServiceConfig {
    pub host: String,
    pub port: u16,
}

impl Default for GatewayServiceConfig {
    fn default() -> (c: Self)
        ensures
            c.host@ == "localhost"@,
            c.port == 3000,
    {
        Self { host: String::from_str("localhost"), port: 3000 }
    }
}

#[derive(Debug, Clone)]
pub struct CoreServiceConfig {
    pub host: String,
    pub port: u16,
}

impl Default for CoreServiceConfig {
    fn default() -> (c: Self)
        ensures
            c.host@ == "localhost"@,
            c.port == 3001,
    {
        Self { host: String::from_str("localhost"), port: 3001 }
    }
}

#[derive(Debug, Clone)]
pub struct AnalyticsServiceConfig {
    pub host: String,
    pub port: u16,
    pub read_batch_size: usize,
    /// Read from `read_block_millis`.
    pub read_block: TimeSpan,
    /// Read from `flush_interval_secs`.
    pub flush_interval: TimeSpan,
}

impl Default for AnalyticsServiceConfig {
    fn default() -> (c: Self)
        ensures
            c.host@ == "localhost"@,
            c.port == 3002,
            c.read_batch_size == 100,
            c.read_block@ == 250 * NANOS_PER_MILLI,
            c.flush_interval@ == 60 * NANOS_PER_SEC,
    {
        Self {
            host: String::from_str("localhost"),
            port: 3002,
            read_batch_size: 100,
            read_block: TimeSpan::from_millis(250),
            flush_interval: TimeSpan::from_secs(60),
        }
    }
}

#[derive(Debug)]
pub struct AppConfig {
    pub redis: RedisConfig,
    pub database: DatabaseConfig,
    pub logging: LoggingConfig,
    pub gateway: GatewayServiceConfig,
    pub core: CoreServiceConfig,
    pub analytics: AnalyticsServiceConfig,
}

/// The values of every setting when nothing overrides them.
pub open spec fn is_default_config(c: AppConfig) -> bool {
    &&& c.redis.host@ == "localhost"@
    &&& c.redis.port == 6379
    &&& c.redis.cache_ttl@ == 300 * NANOS_PER_SEC
    &&& c.redis.streams.events@ == "Events"@
    &&& c.database.host@ == "localhost"@
    &&& c.database.port == 5432
    &&& c.database.user@ == "postgres"@
    &&& c.database.password@ == "postgres"@
    &&& c.database.db_name@ == "kurlyk"@
    &&& c.logging.level@ == "info"@
    &&& !c.logging.enabled
    &&& c.logging.otlp_endpoint matches Some(e) && e@ == "http://alloy:4317"@
    &&& c.gateway.host@ == "localhost"@
    &&& c.gateway.port == 3000
    &&& c.core.host@ == "localhost"@
    &&& c.core.port == 3001
    &&& c.analytics.host@ == "localhost"@
    &&& c.analytics.port == 3002
    &&& c.analytics.read_batch_size == 100
    &&& c.analytics.read_block@ == 250 * NANOS_PER_MILLI
    &&& c.analytics.flush_interval@ == 60 * NANOS_PER_SEC
}

impl Default for AppConfig {
    fn default() -> (c: Self)
        ensures
            is_default_config(c),
    {
        Self {
            redis: RedisConfig::default(),
            database: DatabaseConfig::default(),
            logging: LoggingConfig::default(),
            gateway: GatewayServiceConfig::default(),
            core: CoreServiceConfig::default(),
            analytics: AnalyticsServiceConfig::default(),
        }
    }
}

#[derive(Debug, Clone)]
pub struct GatewayConfig {
    pub gateway: GatewayServiceConfig,
    pub redis: RedisConfig,
    pub core: ServiceAddress,
    pub analytics: ServiceAddress,
    pub logging: LoggingConfig,
}

#[derive(Debug, Clone)]
pub struct CoreConfig {
    pub core: CoreServiceConfig,
    pub redis: RedisConfig,
    pub database: DatabaseConfig,
    pub logging: LoggingConfig,
}

#[derive(Debug, Clone)]
pub struct AnalyticsConfig {
    pub analytics: AnalyticsServiceConfig,
    pub redis: RedisConfig,
    pub database: DatabaseConfig,
    pub logging: LoggingConfig,
}

} // verus!
