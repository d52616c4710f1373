//! Service configuration: its types, defaults, validation and loading.

pub mod error;
pub mod types;
pub mod validation;

pub use error::ConfigFailure;
pub use types::{
    AnalyticsConfig, AnalyticsServiceConfig, AppConfig, CoreConfig, CoreServiceConfig, DatabaseConfig,
    GatewayConfig, GatewayServiceConfig, LoggingConfig, RedisAddress, RedisConfig, ServiceAddress, Streams,
};
pub use validation::Validate;

pub mod source;
pub mod loader;
pub mod conversions;
pub mod display;
