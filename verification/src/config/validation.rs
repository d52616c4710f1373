//! The rules a configuration must satisfy before the services use it.

use vstd::prelude::*;
use vstd::string::*;

use crate::config::error::ConfigFailure;
use crate::config::types::{
    is_default_config, AnalyticsServiceConfig, AppConfig, CoreServiceConfig, DatabaseConfig, GatewayServiceConfig, LoggingConfig,
    RedisConfig, Streams,
};
use crate::text::{is_blank, is_blank_str, is_white_space};
use crate::time::NANOS_PER_MILLI;

verus! {

/// A rejected setting: the field's name and what is wrong with it.
pub type Problem = (Seq<char>, Seq<char>);

pub open spec fn msg_blank() -> Seq<char> {
    "must not be blank"@
}

pub open spec fn msg_positive() -> Seq<char> {
    "must be greater than zero"@
}

pub open spec fn msg_read_block() -> Seq<char> {
    "must be between 1 and 500"@
}

/// The first of two possible problems, in the order the rules are checked.
pub open spec fn first(a: Option<Problem>, b: Option<Problem>) -> Option<Problem> {
    if a is Some {
        a
    } else {
        b
    }
}

pub open spec fn blank_problem(value: Seq<char>, field: Seq<char>) -> Option<Problem> {
    if is_blank(value) {
        Some((field, msg_blank()))
    } else {
        None
    }
}

pub open spec fn port_problem(port: u16, field: Seq<char>) -> Option<Problem> {
    if port == 0 {
        Some((field, msg_positive()))
    } else {
        None
    }
}

pub open spec fn positive_problem(value: nat, field: Seq<char>) -> Option<Problem> {
    if value == 0 {
        Some((field, msg_positive()))
    } else {
        None
    }
}

/// Whether `r` is the outcome of a validation that found `p`.
pub open spec fn reports(r: Result<(), ConfigFailure>, p: Option<Problem>) -> bool {
    match p {
        None => r is Ok,
        Some(problem) => r matches Err(ConfigFailure::Invalid { field, message }) && field@ == problem.0
            && message@ == problem.1,
    }
}

pub open spec fn streams_problem(s: Streams) -> Option<Problem> {
    blank_problem(s.events@, "redis.streams.events"@)
}

pub open spec fn redis_problem(c: RedisConfig) -> Option<Problem> {
    first(
        blank_problem(c.host@, "redis.host"@),
        first(
            port_problem(c.port, "redis.port"@),
            first(positive_problem(c.cache_ttl@, "redis.cache_ttl_secs"@), streams_problem(c.streams)),
        ),
    )
}

pub open spec fn database_problem(c: DatabaseConfig) -> Option<Problem> {
    first(
        blank_problem(c.host@, "database.host"@),
        first(
            port_problem(c.port, "database.port"@),
            first(blank_problem(c.user@, "database.user"@), blank_problem(c.db_name@, "database.db_name"@)),
        ),
    )
}

pub open spec fn logging_problem(c: LoggingConfig) -> Option<Problem> {
    blank_problem(c.level@, "logging.level"@)
}

pub open spec fn gateway_problem(c: GatewayServiceConfig) -> Option<Problem> {
    first(blank_problem(c.host@, "gateway.host"@), port_problem(c.port, "gateway.port"@))
}

pub open spec fn core_problem(c: CoreServiceConfig) -> Option<Problem> {
    first(blank_problem(c.host@, "core.host"@), port_problem(c.port, "core.port"@))
}

/// Whether a read block of `nanos` lies within 1..=500 whole milliseconds.
pub open spec fn read_block_in_range(nanos: nat) -> bool {
    1 <= nanos / (NANOS_PER_MILLI as nat) <= 500
}

pub open spec fn analytics_problem(c: AnalyticsServiceConfig) -> Option<Problem> {
    first(
        blank_problem(c.host@, "analytics.host"@),
        first(
            port_problem(c.port, "analytics.port"@),
            first(
                positive_problem(c.read_batch_size as nat, "analytics.read_batch_size"@),
                first(
                    if read_block_in_range(c.read_block@) {
                        None
                    } else {
                        Some(("analytics.read_block_millis"@, msg_read_block()))
                    },
                    positive_problem(c.flush_interval@, "analytics.flush_interval_secs"@),
                ),
            ),
        ),
    )
}

/// A read block is accepted only from 1 to 500 whole milliseconds: once the
/// host, port and batch size pass, an analytics configuration is rejected
/// for its read block, and for nothing before it, exactly when the read
/// block is under one millisecond or 501 milliseconds and more.
pub proof fn read_block_bounds(c: AnalyticsServiceConfig)
    requires
        !is_blank(c.host@),
        c.port != 0,
        c.read_batch_size != 0,
    ensures
        c.read_block@ < 1_000_000 ==> analytics_problem(c) == Some(
            ("analytics.read_block_millis"@, "must be between 1 and 500"@),
        ),
        c.read_block@ >= 501_000_000 ==> analytics_problem(c) == Some(
            ("analytics.read_block_millis"@, "must be between 1 and 500"@),
        ),
        1_000_000 <= c.read_block@ < 501_000_000 ==> analytics_problem(c) != Some(
            ("analytics.read_block_millis"@, "must be between 1 and 500"@),
        ),
{
    reveal_strlit("analytics.read_block_millis");
    reveal_strlit("analytics.flush_interval_secs");
    reveal_strlit("must be between 1 and 500");
    reveal_strlit("must be greater than zero");
    let nanos = c.read_block@;
    assert(nanos < 1_000_000 ==> nanos / 1_000_000 < 1) by (nonlinear_arith);
    assert(nanos >= 501_000_000 ==> nanos / 1_000_000 > 500) by (nonlinear_arith);
    assert(1_000_000 <= nanos < 501_000_000 ==> 1 <= nanos / 1_000_000 <= 500) by (nonlinear_arith);
    assert(NANOS_PER_MILLI as nat == 1_000_000);
    assert((nanos < 1_000_000 || nanos >= 501_000_000) <==> !read_block_in_range(nanos));
    assert(blank_problem(c.host@, "analytics.host"@) is None);
    assert(port_problem(c.port, "analytics.port"@) is None);
    assert(positive_problem(c.read_batch_size as nat, "analytics.read_batch_size"@) is None);
    assert(!read_block_in_range(c.read_block@) ==> analytics_problem(c) == Some(
        ("analytics.read_block_millis"@, "must be between 1 and 500"@),
    ));
    assert("analytics.flush_interval_secs"@.len() != "analytics.read_block_millis"@.len());
    assert(read_block_in_range(c.read_block@) ==> analytics_problem(c) == positive_problem(
        c.flush_interval@,
        "analytics.flush_interval_secs"@,
    ));
}

pub open spec fn app_problem(c: AppConfig) -> Option<Problem> {
    first(
        redis_problem(c.redis),
        first(
            database_problem(c.database),
            first(
                logging_problem(c.logging),
                first(gateway_problem(c.gateway), first(core_problem(c.core), analytics_problem(c.analytics))),
            ),
        ),
    )
}

/// A configuration passes validation exactly when every rule holds: hosts,
/// the stream, the database user and name and the log level are not blank,
/// every port is nonzero, the cache time-to-live, the read batch size and
/// the flush interval are positive, and the read block lies from 1 to 500
/// whole milliseconds.
pub proof fn valid_exactly_when_every_rule_holds(c: AppConfig)
    ensures
        app_problem(c) is None <==> {
            &&& !is_blank(c.redis.host@) && c.redis.port != 0 && c.redis.cache_ttl@ > 0
            &&& !is_blank(c.redis.streams.events@)
            &&& !is_blank(c.database.host@) && c.database.port != 0
            &&& !is_blank(c.database.user@) && !is_blank(c.database.db_name@)
            &&& !is_blank(c.logging.level@)
            &&& !is_blank(c.gateway.host@) && c.gateway.port != 0
            &&& !is_blank(c.core.host@) && c.core.port != 0
            &&& !is_blank(c.analytics.host@) && c.analytics.port != 0 && c.analytics.read_batch_size > 0
            &&& 1_000_000 <= c.analytics.read_block@ < 501_000_000
            &&& c.analytics.flush_interval@ > 0
        },
{
    let nanos = c.analytics.read_block@;
    assert(nanos < 1_000_000 ==> nanos / 1_000_000 < 1) by (nonlinear_arith);
    assert(nanos >= 501_000_000 ==> nanos / 1_000_000 > 500) by (nonlinear_arith);
    assert(1_000_000 <= nanos < 501_000_000 ==> 1 <= nanos / 1_000_000 <= 500) by (nonlinear_arith);
    assert(NANOS_PER_MILLI as nat == 1_000_000);
    assert((1_000_000 <= nanos < 501_000_000) <==> read_block_in_range(nanos));
}

/// The default configuration breaks no rule.
pub proof fn default_config_is_valid(c: AppConfig)
    requires
        is_default_config(c),
    ensures
        app_problem(c) is None,
{
    reveal_strlit("localhost");
    reveal_strlit("Events");
    reveal_strlit("postgres");
    reveal_strlit("kurlyk");
    reveal_strlit("info");
    assert(!is_white_space('l'));
    assert(!is_white_space('E'));
    assert(!is_white_space('p'));
    assert(!is_white_space('k'));
    assert(!is_white_space('i'));
    assert(c.redis.host@[0] == 'l');
    assert(!is_blank(c.redis.host@));
    assert(c.redis.streams.events@[0] == 'E');
    assert(!is_blank(c.redis.streams.events@));
    assert(c.database.host@[0] == 'l');
    assert(!is_blank(c.database.host@));
    assert(c.database.user@[0] == 'p');
    assert(!is_blank(c.database.user@));
    assert(c.database.db_name@[0] == 'k');
    assert(!is_blank(c.database.db_name@));
    assert(c.logging.level@[0] == 'i');
    assert(!is_blank(c.logging.level@));
    assert(c.gateway.host@[0] == 'l');
    assert(!is_blank(c.gateway.host@));
    assert(c.core.host@[0] == 'l');
    assert(!is_blank(c.core.host@));
    assert(c.analytics.host@[0] == 'l');
    assert(!is_blank(c.analytics.host@));
}

pub trait Validate {
    fn validate(&self) -> (r: Result<(), ConfigFailure>);
}

fn invalid(field: &str, message: &str) -> (e: ConfigFailure)
    ensures
        e matches ConfigFailure::Invalid { field: f, message: m } && f@ == field@ && m@ == message@,
{
    ConfigFailure::Invalid { field: String::from_str(field), message: String::from_str(message) }
}

fn require_non_blank(value: &str, field: &str) -> (r: Result<(), ConfigFailure>)
    ensures
        reports(r, blank_problem(value@, field@)),
{
    if is_blank_str(value) {
        proof {
            reveal_strlit("must not be blank");
        }
        return Err(invalid(field, "must not be blank"));
    }
    Ok(())
}

fn require_port(port: u16, field: &str) -> (r: Result<(), ConfigFailure>)
    ensures
        reports(r, port_problem(port, field@)),
{
    if port == 0 {
        return Err(invalid(field, "must be greater than zero"));
    }
    Ok(())
}

impl Validate for Streams {
    fn validate(&self) -> (r: Result<(), ConfigFailure>)
        ensures
            reports(r, streams_problem(*self)),
    {
        require_non_blank(self.events.as_str(), "redis.streams.events")
    }
}

impl Validate for RedisConfig {
    fn validate(&self) -> (r: Result<(), ConfigFailure>)
        ensures
            reports(r, redis_problem(*self)),
    {
        let r = require_non_blank(self.host.as_str(), "redis.host");
        if r.is_err() {
            return r;
        }
        let r = require_port(self.port, "redis.port");
        if r.is_err() {
            return r;
        }
        if self.cache_ttl.is_zero() {
            return Err(invalid("redis.cache_ttl_secs", "must be greater than zero"));
        }
        self.streams.validate()
    }
}

impl Validate for DatabaseConfig {
    fn validate(&self) -> (r: Result<(), ConfigFailure>)
        ensures
            reports(r, database_problem(*self)),
    {
        let r = require_non_blank(self.host.as_str(), "database.host");
        if r.is_err() {
            return r;
        }
        let r = require_port(self.port, "database.port");
        if r.is_err() {
            return r;
        }
        let r = require_non_blank(self.user.as_str(), "database.user");
        if r.is_err() {
            return r;
        }
        require_non_blank(self.db_name.as_str(), "database.db_name")
    }
}

impl Validate for LoggingConfig {
    fn validate(&self) -> (r: Result<(), ConfigFailure>)
        ensures
            reports(r, logging_problem(*self)),
    {
        require_non_blank(self.level.as_str(), "logging.level")
    }
}

impl Validate for GatewayServiceConfig {
    fn validate(&self) -> (r: Result<(), ConfigFailure>)
        ensures
            reports(r, gateway_problem(*self)),
    {
        let r = require_non_blank(self.host.as_str(), "gateway.host");
        if r.is_err() {
            return r;
        }
        require_port(self.port, "gateway.port")
    }
}

impl Validate for CoreServiceConfig {
    fn validate(&self) -> (r: Result<(), ConfigFailure>)
        ensures
            reports(r, core_problem(*self)),
    {
        let r = require_non_blank(self.host.as_str(), "core.host");
        if r.is_err() {
            return r;
        }
        require_port(self.port, "core.port")
    }
}

impl Validate for AnalyticsServiceConfig {
    fn validate(&self) -> (r: Result<(), ConfigFailure>)
        ensures
            reports(r, analytics_problem(*self)),
    {
        let r = require_non_blank(self.host.as_str(), "analytics.host");
        if r.is_err() {
            return r;
        }
        let r = require_port(self.port, "analytics.port");
        if r.is_err() {
            return r;
        }
        if self.read_batch_size == 0 {
            return Err(invalid("analytics.read_batch_size", "must be greater than zero"));
        }
        let millis = self.read_block.as_millis();
        if !(1 <= millis && millis <= 500) {
            return Err(invalid("analytics.read_block_millis", "must be between 1 and 500"));
        }
        if self.flush_interval.is_zero() {
            return Err(invalid("analytics.flush_interval_secs", "must be greater than zero"));
        }
        Ok(())
    }
}

impl Validate for AppConfig {
    fn validate(&self) -> (r: Result<(), ConfigFailure>)
        ensures
            reports(r, app_problem(*self)),
    {
        let r = self.redis.validate();
        if r.is_err() {
            return r;
        }
        let r = self.database.validate();
        if r.is_err() {
            return r;
        }
        let r = self.logging.validate();
        if r.is_err() {
            return r;
        }
        let r = self.gateway.validate();
        if r.is_err() {
            return r;
        }
        let r = self.core.validate();
        if r.is_err() {
            return r;
        }
        self.analytics.validate()
    }
}

} // verus!
