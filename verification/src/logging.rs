//! Where telemetry is exported.

use vstd::prelude::*;
use vstd::string::*;

use crate::config::LoggingConfig;

verus! {

/// The OTLP endpoint telemetry is exported to: the configured one, or
/// `http://alloy:4317` when none is configured.
pub fn get_endpoint(config: &LoggingConfig) -> (endpoint: String)
    ensures
        match config.otlp_endpoint {
            Some(e) => endpoint@ == e@,
            None => endpoint@ == "http://alloy:4317"@,
        },
{
    match &config.otlp_endpoint {
        Some(e) => e.clone(),
        None => String::from_str("http://alloy:4317"),
    }
}

} // verus!
