//! The configuration each service receives, cut from the whole.

use vstd::prelude::*;
use vstd::string::*;

use crate::config::types::{AnalyticsConfig, AppConfig, CoreConfig, GatewayConfig, ServiceAddress};

verus! {

impl From<AppConfig> for GatewayConfig {
    /// The gateway's own settings, Redis and logging, and the addresses of
    /// the core and analytics services over `grpc`.
    fn from(value: AppConfig) -> (c: Self)
        ensures
            c.gateway == value.gateway,
            c.redis == value.redis,
            c.logging == value.logging,
            c.core.scheme matches Some(s) && s@ == "grpc"@,
            c.core.host == value.core.host,
            c.core.port == value.core.port,
            c.analytics.scheme matches Some(s) && s@ == "grpc"@,
            c.analytics.host == value.analytics.host,
            c.analytics.port == value.analytics.port,
    {
        Self {
            gateway: value.gateway,
            redis: value.redis,
            core: ServiceAddress {
                scheme: Some(String::from_str("grpc")),
                host: value.core.host,
                port: value.core.port,
            },
            analytics: ServiceAddress {
                scheme: Some(String::from_str("grpc")),
                host: value.analytics.host,
                port: value.analytics.port,
            },
            logging: value.logging,
        }
    }
}

impl vstd::std_specs::convert::FromSpecImpl<AppConfig> for GatewayConfig {
    /// The conversion creates new addresses, so it is described by the
    /// `ensures` of `from` rather than by a spec function.
    open spec fn obeys_from_spec() -> bool {
        false
    }

    open spec fn from_spec(v: AppConfig) -> Self {
        arbitrary()
    }
}

impl From<AppConfig> for CoreConfig {
    fn from(value: AppConfig) -> (c: Self) {
        Self { core: value.core, redis: value.redis, database: value.database, logging: value.logging }
    }
}

impl vstd::std_specs::convert::FromSpecImpl<AppConfig> for CoreConfig {
    open spec fn obeys_from_spec() -> bool {
        true
    }

    open spec fn from_spec(v: AppConfig) -> Self {
        CoreConfig { core: v.core, redis: v.redis, database: v.database, logging: v.logging }
    }
}

impl From<AppConfig> for AnalyticsConfig {
    fn from(value: AppConfig) -> (c: Self) {
        Self {
            analytics: value.analytics,
            redis: value.redis,
            logging: value.logging,
            database: value.database,
        }
    }
}

impl vstd::std_specs::convert::FromSpecImpl<AppConfig> for AnalyticsConfig {
    open spec fn obeys_from_spec() -> bool {
        true
    }

    open spec fn from_spec(v: AppConfig) -> Self {
        AnalyticsConfig { analytics: v.analytics, redis: v.redis, database: v.database, logging: v.logging }
    }
}

} // verus!
