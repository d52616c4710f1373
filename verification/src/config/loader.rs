//! Reading a configuration out of its sources: a TOML document layered under
//! `APP_`-prefixed environment variables. Settings that no source defines take
//! their defaults; a key that no configuration type defines is rejected.

use vstd::prelude::*;
use vstd::string::*;

use crate::config::error::ConfigFailure;
use crate::config::source::{
    build_layered, config_bool, config_build, config_optional_string, config_root_keys, config_string,
    config_table_keys, config_u16, config_u64, config_usize, environment_source, failure_is, get_bool,
    get_optional_string, get_string, get_u16, get_u64, get_usize, plain_environment, root_keys, table_keys,
    var_views, file_extensions, kind_extensions, EnvSettings, EnvironmentSource, FileKind, LayerSources, LayeredConfig,
    LookupError,
};
use crate::config::types::{
    AnalyticsServiceConfig, AppConfig, CoreServiceConfig, DatabaseConfig, GatewayServiceConfig, LoggingConfig,
    RedisConfig, Streams,
};
use crate::config::validation::{app_problem, database_problem, Validate};
use crate::text::{is_one_of, str_equal, views};
use crate::time::{TimeSpan, NANOS_PER_MILLI, NANOS_PER_SEC};

verus! {

/// What a lookup of one setting found in the sources.
#[derive(Debug)]
pub enum RawSetting<T> {
    /// No source defines the setting.
    Absent,
    /// The setting's value.
    Present(T),
    /// The setting is defined but its value could not be read; why.
    Malformed(String),
}

/// A reason to reject the sources: a key that no configuration type defines,
/// or a setting (key, description) whose value could not be read.
pub enum Fault {
    Unknown(Seq<char>),
    Bad(Seq<char>, Seq<char>),
}

/// Whether `e` is the error that reports `f`.
pub open spec fn fault_reported(e: ConfigFailure, f: Fault) -> bool {
    match f {
        Fault::Unknown(name) => e matches ConfigFailure::UnknownField { field } && field@ == name,
        Fault::Bad(key, msg) => e matches ConfigFailure::Malformed { key: k, message: m } && k@ == key && m@
            == msg,
    }
}

/// The first of two possible faults, in the order the sources are checked.
pub open spec fn first_fault(a: Option<Fault>, b: Option<Fault>) -> Option<Fault> {
    if a is Some {
        a
    } else {
        b
    }
}

pub open spec fn key_views(keys: Seq<String>) -> Seq<Seq<char>> {
    keys.map_values(|k: String| k@)
}

/// The first of `keys` that is not among `allowed`.
pub open spec fn first_unknown(keys: Seq<Seq<char>>, allowed: Seq<Seq<char>>) -> Option<Seq<char>>
    decreases keys.len(),
{
    if keys.len() == 0 {
        None
    } else if !allowed.contains(keys[0]) {
        Some(keys[0])
    } else {
        first_unknown(keys.drop_first(), allowed)
    }
}

/// The fault in a table whose keys were looked up as `keys`: unreadable, or
/// holding a key outside `allowed` (reported with `prefix` before it).
pub open spec fn table_fault(
    prefix: Seq<char>,
    section: Seq<char>,
    keys: RawSetting<Vec<String>>,
    allowed: Seq<Seq<char>>,
) -> Option<Fault> {
    match keys {
        RawSetting::Absent => None,
        RawSetting::Malformed(m) => Some(Fault::Bad(section, m@)),
        RawSetting::Present(ks) => match first_unknown(key_views(ks@), allowed) {
            Some(k) => Some(Fault::Unknown(prefix + k)),
            None => None,
        },
    }
}

pub open spec fn field_fault<T>(key: Seq<char>, s: RawSetting<T>) -> Option<Fault> {
    match s {
        RawSetting::Malformed(m) => Some(Fault::Bad(key, m@)),
        _ => None,
    }
}

/// The text a setting takes: its value if present, `default` otherwise.
pub open spec fn text_or(s: RawSetting<String>, default: Seq<char>) -> Seq<char> {
    match s {
        RawSetting::Present(v) => v@,
        _ => default,
    }
}

/// The value a setting takes: its value if present, `default` otherwise.
pub open spec fn value_or<T>(s: RawSetting<T>, default: T) -> T {
    match s {
        RawSetting::Present(v) => v,
        _ => default,
    }
}

/// Whether `r` is what checking a part of the sources with outcome `fault` returns.
pub open spec fn checked(r: Result<(), ConfigFailure>, fault: Option<Fault>) -> bool {
    match fault {
        Some(f) => r matches Err(e) && fault_reported(e, f),
        None => r is Ok,
    }
}

/// Turns the outcome of a lookup into a setting: a key that no source
/// defines is absent, any other failure makes the setting malformed.
pub fn lookup<T>(r: Result<T, LookupError>) -> (s: RawSetting<T>)
    ensures
        match r {
            Ok(v) => s == RawSetting::Present(v),
            Err(LookupError::NotFound) => s is Absent,
            Err(LookupError::Failed(m)) => s == RawSetting::<T>::Malformed(m),
        },
{
    match r {
        Ok(v) => RawSetting::Present(v),
        Err(LookupError::NotFound) => RawSetting::Absent,
        Err(LookupError::Failed(m)) => RawSetting::Malformed(m),
    }
}

/// Whether a failed lookup's setting is the one the name answers.
pub open spec fn failed_setting<T>(s: RawSetting<T>, f: Option<Seq<char>>) -> bool {
    match f {
        None => s is Absent,
        Some(m) => s matches RawSetting::Malformed(t) && t@ == m,
    }
}

/// Whether `s` is the text setting a lookup answering `a` gives.
pub open spec fn text_read(s: RawSetting<String>, a: Result<Seq<char>, Option<Seq<char>>>) -> bool {
    match a {
        Ok(v) => s matches RawSetting::Present(t) && t@ == v,
        Err(f) => failed_setting(s, f),
    }
}

/// Whether `s` is the setting a lookup answering `a` gives.
pub open spec fn value_read<T>(s: RawSetting<T>, a: Result<T, Option<Seq<char>>>) -> bool {
    match a {
        Ok(v) => s == RawSetting::Present(v),
        Err(f) => failed_setting(s, f),
    }
}

/// Whether `s` is the optional text setting a lookup answering `a` gives.
pub open spec fn optional_text_read(s: RawSetting<Option<String>>, a: Result<Option<Seq<char>>, Option<Seq<char>>>) -> bool {
    match a {
        Ok(None) => s == RawSetting::Present(None::<String>),
        Ok(Some(v)) => s matches RawSetting::Present(Some(t)) && t@ == v,
        Err(f) => failed_setting(s, f),
    }
}

/// Whether `s` holds, in some order and once each, the keys a lookup
/// answering `a` gives.
pub open spec fn keys_read(s: RawSetting<Vec<String>>, a: Result<Set<Seq<char>>, Option<Seq<char>>>) -> bool {
    match a {
        Ok(set) => s matches RawSetting::Present(ks) && key_views(ks@).no_duplicates() && key_views(ks@).to_set()
            == set,
        Err(f) => failed_setting(s, f),
    }
}

/// Checks the keys of a table against the names its type defines.
fn check_table(prefix: &str, section: &str, keys: RawSetting<Vec<String>>, allowed: &Vec<&str>) -> (r: Result<
    (),
    ConfigFailure,
>)
    ensures
        checked(r, table_fault(prefix@, section@, keys, views(allowed@))),
{
    match keys {
        RawSetting::Absent => Ok(()),
        RawSetting::Malformed(m) => Err(ConfigFailure::Malformed { key: String::from_str(section), message: m }),
        RawSetting::Present(ks) => {
            let ghost all = key_views(ks@);
            let ghost allowed_views = views(allowed@);
            let mut i: usize = 0;
            assert(all.subrange(0, all.len() as int) =~= all);
            while i < ks.len()
                invariant
                    i <= ks.len(),
                    keys == RawSetting::Present(ks),
                    all == key_views(ks@),
                    allowed_views == views(allowed@),
                    first_unknown(all, allowed_views) == first_unknown(all.subrange(i as int, all.len() as int), allowed_views),
                decreases ks.len() - i,
            {
                let ghost rest = all.subrange(i as int, all.len() as int);
                assert(rest[0] == ks@[i as int]@);
                if !is_one_of(ks[i].as_str(), allowed) {
                    assert(rest.len() > 0);
                    assert(first_unknown(rest, allowed_views) == Some(rest[0]));
                    let mut field = String::from_str(prefix);
                    field.append(ks[i].as_str());
                    assert(field@ == prefix@ + rest[0]);
                    return Err(ConfigFailure::UnknownField { field });
                }
                assert(rest.drop_first() =~= all.subrange(i + 1, all.len() as int));
                i = i + 1;
            }
            assert(all.subrange(i as int, all.len() as int).len() == 0);
            Ok(())
        },
    }
}

/// The text of a setting, or its default when absent.
fn take_text(key: &str, s: RawSetting<String>, default: &str) -> (r: Result<String, ConfigFailure>)
    ensures
        match field_fault(key@, s) {
            Some(f) => r matches Err(e) && fault_reported(e, f),
            None => r matches Ok(v) && v@ == text_or(s, default@),
        },
{
    match s {
        RawSetting::Absent => Ok(String::from_str(default)),
        RawSetting::Present(v) => Ok(v),
        RawSetting::Malformed(m) => Err(ConfigFailure::Malformed { key: String::from_str(key), message: m }),
    }
}

/// The value of a setting, or its default when absent.
fn take_value<T>(key: &str, s: RawSetting<T>, default: T) -> (r: Result<T, ConfigFailure>)
    ensures
        match field_fault(key@, s) {
            Some(f) => r matches Err(e) && fault_reported(e, f),
            None => r == Ok::<T, ConfigFailure>(value_or(s, default)),
        },
{
    match s {
        RawSetting::Absent => Ok(default),
        RawSetting::Present(v) => Ok(v),
        RawSetting::Malformed(m) => Err(ConfigFailure::Malformed { key: String::from_str(key), message: m }),
    }
}


/// The names of the top-level tables.
pub open spec fn root_names() -> Seq<Seq<char>> {
    seq!["redis"@, "database"@, "logging"@, "gateway"@, "core"@, "analytics"@]
}

pub open spec fn redis_names() -> Seq<Seq<char>> {
    seq!["host"@, "port"@, "cache_ttl_secs"@, "streams"@]
}

pub open spec fn streams_names() -> Seq<Seq<char>> {
    seq!["events"@]
}

pub open spec fn database_names() -> Seq<Seq<char>> {
    seq!["host"@, "port"@, "user"@, "password"@, "db_name"@]
}

pub open spec fn logging_names() -> Seq<Seq<char>> {
    seq!["level"@, "enabled"@, "otlp_endpoint"@]
}

pub open spec fn service_names() -> Seq<Seq<char>> {
    seq!["host"@, "port"@]
}

pub open spec fn analytics_names() -> Seq<Seq<char>> {
    seq!["host"@, "port"@, "read_batch_size"@, "read_block_millis"@, "flush_interval_secs"@]
}

/// What the sources hold of the `redis` table.
pub struct RawRedis {
    pub keys: RawSetting<Vec<String>>,
    pub host: RawSetting<String>,
    pub port: RawSetting<u16>,
    pub cache_ttl_secs: RawSetting<u64>,
    pub streams_keys: RawSetting<Vec<String>>,
    pub streams_events: RawSetting<String>,
}

pub open spec fn redis_fault(r: RawRedis) -> Option<Fault> {
    first_fault(
        table_fault("redis."@, "redis"@, r.keys, redis_names()),
        first_fault(
            table_fault("redis.streams."@, "redis.streams"@, r.streams_keys, streams_names()),
            first_fault(
                field_fault("redis.host"@, r.host),
                first_fault(
                    field_fault("redis.port"@, r.port),
                    first_fault(
                        field_fault("redis.cache_ttl_secs"@, r.cache_ttl_secs),
                        field_fault("redis.streams.events"@, r.streams_events),
                    ),
                ),
            ),
        ),
    )
}

pub open spec fn redis_decoded(r: RawRedis, c: RedisConfig) -> bool {
    &&& c.host@ == text_or(r.host, "localhost"@)
    &&& c.port == value_or(r.port, 6379u16)
    &&& c.cache_ttl@ == value_or(r.cache_ttl_secs, 300u64) * NANOS_PER_SEC
    &&& c.streams.events@ == text_or(r.streams_events, "Events"@)
}

/// Whether `r` is the outcome of decoding a part with fault `fault` whose
/// decoded value must satisfy `decoded`.
pub open spec fn decodes<T>(r: Result<T, ConfigFailure>, fault: Option<Fault>, decoded: spec_fn(T) -> bool) -> bool {
    match fault {
        Some(f) => r matches Err(e) && fault_reported(e, f),
        None => r matches Ok(c) && decoded(c),
    }
}

/// The redis settings are taken as given, and the cache time-to-live in
/// whole seconds, 300 s when unset.
pub proof fn redis_ttl_in_seconds(raw: RawRedis, c: RedisConfig)
    requires
        redis_decoded(raw, c),
    ensures
        raw.cache_ttl_secs matches RawSetting::Present(secs) ==> c.cache_ttl@ == secs * 1_000_000_000,
        !(raw.cache_ttl_secs is Present) ==> c.cache_ttl@ == 300_000_000_000,
        raw.host matches RawSetting::Present(h) ==> c.host@ == h@,
        raw.port matches RawSetting::Present(p) ==> c.port == p,
        !(raw.port is Present) ==> c.port == 6379,
        raw.streams_events matches RawSetting::Present(e) ==> c.streams.events@ == e@,
{
}

/// Builds the `redis` table from what the sources hold, taking defaults for
/// absent settings.
pub fn decode_redis(raw: RawRedis) -> (r: Result<RedisConfig, ConfigFailure>)
    ensures
        decodes(r, redis_fault(raw), |c: RedisConfig| redis_decoded(raw, c)),
{
    let names = vec!["host", "port", "cache_ttl_secs", "streams"];
    assert(views(names@) =~= redis_names());
    let r = check_table("redis.", "redis", raw.keys, &names);
    if let Err(e) = r {
        return Err(e);
    }
    let names = vec!["events"];
    assert(views(names@) =~= streams_names());
    let r = check_table("redis.streams.", "redis.streams", raw.streams_keys, &names);
    if let Err(e) = r {
        return Err(e);
    }
    let host = match take_text("redis.host", raw.host, "localhost") {
        Ok(v) => v,
        Err(e) => return Err(e),
    };
    let port = match take_value("redis.port", raw.port, 6379u16) {
        Ok(v) => v,
        Err(e) => return Err(e),
    };
    let secs = match take_value("redis.cache_ttl_secs", raw.cache_ttl_secs, 300u64) {
        Ok(v) => v,
        Err(e) => return Err(e),
    };
    let events = match take_text("redis.streams.events", raw.streams_events, "Events") {
        Ok(v) => v,
        Err(e) => return Err(e),
    };
    Ok(RedisConfig { host, port, cache_ttl: TimeSpan::from_secs(secs), streams: Streams { events } })
}


/// What the sources hold of the `database` table.
pub struct RawDatabase {
    pub keys: RawSetting<Vec<String>>,
    pub host: RawSetting<String>,
    pub port: RawSetting<u16>,
    pub user: RawSetting<String>,
    pub password: RawSetting<String>,
    pub db_name: RawSetting<String>,
}

pub open spec fn database_fault(r: RawDatabase) -> Option<Fault> {
    first_fault(
        table_fault("database."@, "database"@, r.keys, database_names()),
        first_fault(
            field_fault("database.host"@, r.host),
            first_fault(
                field_fault("database.port"@, r.port),
                first_fault(
                    field_fault("database.user"@, r.user),
                    first_fault(field_fault("database.password"@, r.password), field_fault("database.db_name"@, r.db_name)),
                ),
            ),
        ),
    )
}

pub open spec fn database_decoded(r: RawDatabase, c: DatabaseConfig) -> bool {
    &&& c.host@ == text_or(r.host, "localhost"@)
    &&& c.port == value_or(r.port, 5432u16)
    &&& c.user@ == text_or(r.user, "postgres"@)
    &&& c.password@ == text_or(r.password, "postgres"@)
    &&& c.db_name@ == text_or(r.db_name, "kurlyk"@)
}

/// Builds the `database` table from what the sources hold.
pub fn decode_database(raw: RawDatabase) -> (r: Result<DatabaseConfig, ConfigFailure>)
    ensures
        decodes(r, database_fault(raw), |c: DatabaseConfig| database_decoded(raw, c)),
{
    let names = vec!["host", "port", "user", "password", "db_name"];
    assert(views(names@) =~= database_names());
    let r = check_table("database.", "database", raw.keys, &names);
    if let Err(e) = r {
        return Err(e);
    }
    let host = match take_text("database.host", raw.host, "localhost") {
        Ok(v) => v,
        Err(e) => return Err(e),
    };
    let port = match take_value("database.port", raw.port, 5432u16) {
        Ok(v) => v,
        Err(e) => return Err(e),
    };
    let user = match take_text("database.user", raw.user, "postgres") {
        Ok(v) => v,
        Err(e) => return Err(e),
    };
    let password = match take_text("database.password", raw.password, "postgres") {
        Ok(v) => v,
        Err(e) => return Err(e),
    };
    let db_name = match take_text("database.db_name", raw.db_name, "kurlyk") {
        Ok(v) => v,
        Err(e) => return Err(e),
    };
    Ok(DatabaseConfig { host, port, user, password, db_name })
}

/// What the sources hold of the `logging` table.
pub struct RawLogging {
    pub keys: RawSetting<Vec<String>>,
    pub level: RawSetting<String>,
    pub enabled: RawSetting<bool>,
    pub otlp_endpoint: RawSetting<Option<String>>,
}

pub open spec fn logging_fault(r: RawLogging) -> Option<Fault> {
    first_fault(
        table_fault("logging."@, "logging"@, r.keys, logging_names()),
        first_fault(
            field_fault("logging.level"@, r.level),
            first_fault(field_fault("logging.enabled"@, r.enabled), field_fault("logging.otlp_endpoint"@, r.otlp_endpoint)),
        ),
    )
}

pub open spec fn logging_decoded(r: RawLogging, c: LoggingConfig) -> bool {
    &&& c.level@ == text_or(r.level, "info"@)
    &&& c.enabled == value_or(r.enabled, false)
    &&& match r.otlp_endpoint {
        RawSetting::Present(Some(v)) => c.otlp_endpoint matches Some(e) && e@ == v@,
        RawSetting::Present(None) => c.otlp_endpoint is None,
        _ => c.otlp_endpoint matches Some(e) && e@ == "http://alloy:4317"@,
    }
}

/// Builds the `logging` table from what the sources hold.
pub fn decode_logging(raw: RawLogging) -> (r: Result<LoggingConfig, ConfigFailure>)
    ensures
        decodes(r, logging_fault(raw), |c: LoggingConfig| logging_decoded(raw, c)),
{
    let names = vec!["level", "enabled", "otlp_endpoint"];
    assert(views(names@) =~= logging_names());
    let r = check_table("logging.", "logging", raw.keys, &names);
    if let Err(e) = r {
        return Err(e);
    }
    let level = match take_text("logging.level", raw.level, "info") {
        Ok(v) => v,
        Err(e) => return Err(e),
    };
    let enabled = match take_value("logging.enabled", raw.enabled, false) {
        Ok(v) => v,
        Err(e) => return Err(e),
    };
    let otlp_endpoint = match raw.otlp_endpoint {
        RawSetting::Absent => Some(String::from_str("http://alloy:4317")),
        RawSetting::Present(v) => v,
        RawSetting::Malformed(m) => {
            return Err(ConfigFailure::Malformed { key: String::from_str("logging.otlp_endpoint"), message: m });
        },
    };
    Ok(LoggingConfig { level, enabled, otlp_endpoint })
}

/// What the sources hold of a table with a host and a port.
pub struct RawService {
    pub keys: RawSetting<Vec<String>>,
    pub host: RawSetting<String>,
    pub port: RawSetting<u16>,
}

pub open spec fn service_fault(name: Seq<char>, r: RawService) -> Option<Fault> {
    first_fault(
        table_fault(name + "."@, name, r.keys, service_names()),
        first_fault(field_fault(name + ".host"@, r.host), field_fault(name + ".port"@, r.port)),
    )
}

/// Reads the host and port of the service table `name`, defaulting to
/// `localhost` and `default_port`.
fn decode_service(name: &str, raw: RawService, default_port: u16) -> (r: Result<(String, u16), ConfigFailure>)
    ensures
        decodes(
            r,
            service_fault(name@, raw),
            |c: (String, u16)| c.0@ == text_or(raw.host, "localhost"@) && c.1 == value_or(raw.port, default_port),
        ),
{
    let names = vec!["host", "port"];
    assert(views(names@) =~= service_names());
    let mut prefix = String::from_str(name);
    prefix.append(".");
    let r = check_table(prefix.as_str(), name, raw.keys, &names);
    if let Err(e) = r {
        return Err(e);
    }
    let mut host_key = String::from_str(name);
    host_key.append(".host");
    let host = match take_text(host_key.as_str(), raw.host, "localhost") {
        Ok(v) => v,
        Err(e) => return Err(e),
    };
    let mut port_key = String::from_str(name);
    port_key.append(".port");
    let port = match take_value(port_key.as_str(), raw.port, default_port) {
        Ok(v) => v,
        Err(e) => return Err(e),
    };
    Ok((host, port))
}

/// What the sources hold of the `analytics` table.
pub struct RawAnalytics {
    pub keys: RawSetting<Vec<String>>,
    pub host: RawSetting<String>,
    pub port: RawSetting<u16>,
    pub read_batch_size: RawSetting<usize>,
    pub read_block_millis: RawSetting<u64>,
    pub flush_interval_secs: RawSetting<u64>,
}

pub open spec fn analytics_fault(r: RawAnalytics) -> Option<Fault> {
    first_fault(
        table_fault("analytics."@, "analytics"@, r.keys, analytics_names()),
        first_fault(
            field_fault("analytics.host"@, r.host),
            first_fault(
                field_fault("analytics.port"@, r.port),
                first_fault(
                    field_fault("analytics.read_batch_size"@, r.read_batch_size),
                    first_fault(
                        field_fault("analytics.read_block_millis"@, r.read_block_millis),
                        field_fault("analytics.flush_interval_secs"@, r.flush_interval_secs),
                    ),
                ),
            ),
        ),
    )
}

pub open spec fn analytics_decoded(r: RawAnalytics, c: AnalyticsServiceConfig) -> bool {
    &&& c.host@ == text_or(r.host, "localhost"@)
    &&& c.port == value_or(r.port, 3002u16)
    &&& c.read_batch_size == value_or(r.read_batch_size, 100usize)
    &&& c.read_block@ == value_or(r.read_block_millis, 250u64) * NANOS_PER_MILLI
    &&& c.flush_interval@ == value_or(r.flush_interval_secs, 60u64) * NANOS_PER_SEC
}

/// The analytics settings are taken as given, and the durations in the
/// units their settings name: the flush interval in whole seconds (60 s when
/// unset) and the read block in milliseconds (250 ms when unset).
pub proof fn analytics_durations_in_their_units(raw: RawAnalytics, c: AnalyticsServiceConfig)
    requires
        analytics_decoded(raw, c),
    ensures
        raw.flush_interval_secs matches RawSetting::Present(secs) ==> c.flush_interval@ == secs * 1_000_000_000,
        !(raw.flush_interval_secs is Present) ==> c.flush_interval@ == 60_000_000_000,
        raw.read_block_millis matches RawSetting::Present(millis) ==> c.read_block@ == millis * 1_000_000,
        !(raw.read_block_millis is Present) ==> c.read_block@ == 250_000_000,
        raw.host matches RawSetting::Present(h) ==> c.host@ == h@,
        raw.port matches RawSetting::Present(p) ==> c.port == p,
        !(raw.port is Present) ==> c.port == 3002,
        raw.read_batch_size matches RawSetting::Present(b) ==> c.read_batch_size == b,
        !(raw.read_batch_size is Present) ==> c.read_batch_size == 100,
{
}

/// Builds the `analytics` table from what the sources hold.
pub fn decode_analytics(raw: RawAnalytics) -> (r: Result<AnalyticsServiceConfig, ConfigFailure>)
    ensures
        decodes(r, analytics_fault(raw), |c: AnalyticsServiceConfig| analytics_decoded(raw, c)),
{
    let names = vec!["host", "port", "read_batch_size", "read_block_millis", "flush_interval_secs"];
    assert(views(names@) =~= analytics_names());
    let r = check_table("analytics.", "analytics", raw.keys, &names);
    if let Err(e) = r {
        return Err(e);
    }
    let host = match take_text("analytics.host", raw.host, "localhost") {
        Ok(v) => v,
        Err(e) => return Err(e),
    };
    let port = match take_value("analytics.port", raw.port, 3002u16) {
        Ok(v) => v,
        Err(e) => return Err(e),
    };
    let read_batch_size = match take_value("analytics.read_batch_size", raw.read_batch_size, 100usize) {
        Ok(v) => v,
        Err(e) => return Err(e),
    };
    let millis = match take_value("analytics.read_block_millis", raw.read_block_millis, 250u64) {
        Ok(v) => v,
        Err(e) => return Err(e),
    };
    let secs = match take_value("analytics.flush_interval_secs", raw.flush_interval_secs, 60u64) {
        Ok(v) => v,
        Err(e) => return Err(e),
    };
    Ok(
        AnalyticsServiceConfig {
            host,
            port,
            read_batch_size,
            read_block: TimeSpan::from_millis(millis),
            flush_interval: TimeSpan::from_secs(secs),
        },
    )
}


/// What the sources hold: the top-level keys and every table.
pub struct RawAppSettings {
    pub root: RawSetting<Vec<String>>,
    pub redis: RawRedis,
    pub database: RawDatabase,
    pub logging: RawLogging,
    pub gateway: RawService,
    pub core: RawService,
    pub analytics: RawAnalytics,
}

pub open spec fn app_fault(r: RawAppSettings) -> Option<Fault> {
    first_fault(
        table_fault(Seq::empty(), Seq::empty(), r.root, root_names()),
        first_fault(
            redis_fault(r.redis),
            first_fault(
                database_fault(r.database),
                first_fault(
                    logging_fault(r.logging),
                    first_fault(
                        service_fault("gateway"@, r.gateway),
                        first_fault(service_fault("core"@, r.core), analytics_fault(r.analytics)),
                    ),
                ),
            ),
        ),
    )
}

pub open spec fn app_decoded(r: RawAppSettings, c: AppConfig) -> bool {
    &&& redis_decoded(r.redis, c.redis)
    &&& database_decoded(r.database, c.database)
    &&& logging_decoded(r.logging, c.logging)
    &&& c.gateway.host@ == text_or(r.gateway.host, "localhost"@)
    &&& c.gateway.port == value_or(r.gateway.port, 3000u16)
    &&& c.core.host@ == text_or(r.core.host, "localhost"@)
    &&& c.core.port == value_or(r.core.port, 3001u16)
    &&& analytics_decoded(r.analytics, c.analytics)
}

/// Builds the whole configuration from what the sources hold.
pub fn decode_app(raw: RawAppSettings) -> (r: Result<AppConfig, ConfigFailure>)
    ensures
        decodes(r, app_fault(raw), |c: AppConfig| app_decoded(raw, c)),
{
    let names = vec!["redis", "database", "logging", "gateway", "core", "analytics"];
    assert(views(names@) =~= root_names());
    proof {
        reveal_strlit("");
    }
    let r = check_table("", "", raw.root, &names);
    assert(""@ == Seq::<char>::empty());
    assert(table_fault(""@, ""@, raw.root, views(names@)) == table_fault(Seq::empty(), Seq::empty(), raw.root, root_names()));
    if let Err(e) = r {
        return Err(e);
    }
    let redis = match decode_redis(raw.redis) {
        Ok(v) => v,
        Err(e) => return Err(e),
    };
    let database = match decode_database(raw.database) {
        Ok(v) => v,
        Err(e) => return Err(e),
    };
    let logging = match decode_logging(raw.logging) {
        Ok(v) => v,
        Err(e) => return Err(e),
    };
    let gateway = match decode_service("gateway", raw.gateway, 3000) {
        Ok(v) => v,
        Err(e) => return Err(e),
    };
    let core = match decode_service("core", raw.core, 3001) {
        Ok(v) => v,
        Err(e) => return Err(e),
    };
    let analytics = match decode_analytics(raw.analytics) {
        Ok(v) => v,
        Err(e) => return Err(e),
    };
    Ok(
        AppConfig {
            redis,
            database,
            logging,
            gateway: GatewayServiceConfig { host: gateway.0, port: gateway.1 },
            core: CoreServiceConfig { host: core.0, port: core.1 },
            analytics,
        },
    )
}

/// Decodes what the sources hold and validates the result: a fault in the
/// sources is reported first, then the first rule the decoded configuration
/// breaks.
pub fn settle_app_config(raw: RawAppSettings) -> (r: Result<AppConfig, ConfigFailure>)
    ensures
        app_fault(raw) matches Some(f) ==> r matches Err(e) && fault_reported(e, f),
        app_fault(raw) is None ==> exists|c: AppConfig|
            #![auto]
            app_decoded(raw, c) && match app_problem(c) {
                Some(p) => r matches Err(ConfigFailure::Invalid { field, message }) && field@ == p.0 && message@
                    == p.1,
                None => r == Ok::<AppConfig, ConfigFailure>(c),
            },
{
    let config = match decode_app(raw) {
        Ok(c) => c,
        Err(e) => return Err(e),
    };
    match config.validate() {
        Ok(()) => Ok(config),
        Err(e) => Err(e),
    }
}

/// The keys of the table at `key`, in the order the configuration's map
/// gives them.
fn read_table(cfg: &LayeredConfig, key: &str) -> (r: RawSetting<Vec<String>>)
    ensures
        plain_environment(cfg.sources().env) ==> keys_read(r, config_table_keys(cfg.sources(), key@)),
{
    lookup(table_keys(cfg, key))
}

/// The text at `key`.
fn read_text(cfg: &LayeredConfig, key: &str) -> (r: RawSetting<String>)
    ensures
        plain_environment(cfg.sources().env) ==> text_read(r, config_string(cfg.sources(), key@)),
{
    lookup(get_string(cfg, key))
}

/// The port at `key`.
fn read_port(cfg: &LayeredConfig, key: &str) -> (r: RawSetting<u16>)
    ensures
        plain_environment(cfg.sources().env) ==> value_read(r, config_u16(cfg.sources(), key@)),
{
    lookup(get_u16(cfg, key))
}

/// The unsigned integer at `key`.
fn read_u64(cfg: &LayeredConfig, key: &str) -> (r: RawSetting<u64>)
    ensures
        plain_environment(cfg.sources().env) ==> value_read(r, config_u64(cfg.sources(), key@)),
{
    lookup(get_u64(cfg, key))
}

/// What the sources `src` hold of the `redis` table.
pub open spec fn redis_read(r: RawRedis, src: LayerSources) -> bool {
    &&& keys_read(r.keys, config_table_keys(src, "redis"@))
    &&& text_read(r.host, config_string(src, "redis.host"@))
    &&& value_read(r.port, config_u16(src, "redis.port"@))
    &&& value_read(r.cache_ttl_secs, config_u64(src, "redis.cache_ttl_secs"@))
    &&& keys_read(r.streams_keys, config_table_keys(src, "redis.streams"@))
    &&& text_read(r.streams_events, config_string(src, "redis.streams.events"@))
}

/// The settings of the `redis` table, one lookup per key.
fn read_redis(cfg: &LayeredConfig) -> (r: RawRedis)
    ensures
        plain_environment(cfg.sources().env) ==> redis_read(r, cfg.sources()),
{
    RawRedis {
        keys: read_table(cfg, "redis"),
        host: read_text(cfg, "redis.host"),
        port: read_port(cfg, "redis.port"),
        cache_ttl_secs: read_u64(cfg, "redis.cache_ttl_secs"),
        streams_keys: read_table(cfg, "redis.streams"),
        streams_events: read_text(cfg, "redis.streams.events"),
    }
}

/// What the sources `src` hold of the `database` table.
pub open spec fn database_read(r: RawDatabase, src: LayerSources) -> bool {
    &&& keys_read(r.keys, config_table_keys(src, "database"@))
    &&& text_read(r.host, config_string(src, "database.host"@))
    &&& value_read(r.port, config_u16(src, "database.port"@))
    &&& text_read(r.user, config_string(src, "database.user"@))
    &&& text_read(r.password, config_string(src, "database.password"@))
    &&& text_read(r.db_name, config_string(src, "database.db_name"@))
}

/// The settings of the `database` table, one lookup per key.
fn read_database(cfg: &LayeredConfig) -> (r: RawDatabase)
    ensures
        plain_environment(cfg.sources().env) ==> database_read(r, cfg.sources()),
{
    RawDatabase {
        keys: read_table(cfg, "database"),
        host: read_text(cfg, "database.host"),
        port: read_port(cfg, "database.port"),
        user: read_text(cfg, "database.user"),
        password: read_text(cfg, "database.password"),
        db_name: read_text(cfg, "database.db_name"),
    }
}

/// What the sources `src` hold of the `logging` table.
pub open spec fn logging_read(r: RawLogging, src: LayerSources) -> bool {
    &&& keys_read(r.keys, config_table_keys(src, "logging"@))
    &&& text_read(r.level, config_string(src, "logging.level"@))
    &&& value_read(r.enabled, config_bool(src, "logging.enabled"@))
    &&& optional_text_read(r.otlp_endpoint, config_optional_string(src, "logging.otlp_endpoint"@))
}

/// The settings of the `logging` table, one lookup per key.
fn read_logging(cfg: &LayeredConfig) -> (r: RawLogging)
    ensures
        plain_environment(cfg.sources().env) ==> logging_read(r, cfg.sources()),
{
    RawLogging {
        keys: read_table(cfg, "logging"),
        level: read_text(cfg, "logging.level"),
        enabled: lookup(get_bool(cfg, "logging.enabled")),
        otlp_endpoint: lookup(get_optional_string(cfg, "logging.otlp_endpoint")),
    }
}

/// What the sources `src` hold of a service table.
pub open spec fn service_read(r: RawService, src: LayerSources, table: Seq<char>, host: Seq<char>, port: Seq<char>) -> bool {
    &&& keys_read(r.keys, config_table_keys(src, table))
    &&& text_read(r.host, config_string(src, host))
    &&& value_read(r.port, config_u16(src, port))
}

/// The settings of a service table, one lookup per key.
fn read_service(cfg: &LayeredConfig, table: &str, host: &str, port: &str) -> (r: RawService)
    ensures
        plain_environment(cfg.sources().env) ==> service_read(r, cfg.sources(), table@, host@, port@),
{
    RawService { keys: read_table(cfg, table), host: read_text(cfg, host), port: read_port(cfg, port) }
}

/// What the sources `src` hold of the `analytics` table.
pub open spec fn analytics_read(r: RawAnalytics, src: LayerSources) -> bool {
    &&& keys_read(r.keys, config_table_keys(src, "analytics"@))
    &&& text_read(r.host, config_string(src, "analytics.host"@))
    &&& value_read(r.port, config_u16(src, "analytics.port"@))
    &&& value_read(r.read_batch_size, config_usize(src, "analytics.read_batch_size"@))
    &&& value_read(r.read_block_millis, config_u64(src, "analytics.read_block_millis"@))
    &&& value_read(r.flush_interval_secs, config_u64(src, "analytics.flush_interval_secs"@))
}

/// The settings of the `analytics` table, one lookup per key.
fn read_analytics(cfg: &LayeredConfig) -> (r: RawAnalytics)
    ensures
        plain_environment(cfg.sources().env) ==> analytics_read(r, cfg.sources()),
{
    RawAnalytics {
        keys: read_table(cfg, "analytics"),
        host: read_text(cfg, "analytics.host"),
        port: read_port(cfg, "analytics.port"),
        read_batch_size: lookup(get_usize(cfg, "analytics.read_batch_size")),
        read_block_millis: read_u64(cfg, "analytics.read_block_millis"),
        flush_interval_secs: read_u64(cfg, "analytics.flush_interval_secs"),
    }
}

/// What the sources `src` hold of every setting the configuration types
/// define.
pub open spec fn app_read(r: RawAppSettings, src: LayerSources) -> bool {
    &&& keys_read(r.root, config_root_keys(src))
    &&& redis_read(r.redis, src)
    &&& database_read(r.database, src)
    &&& logging_read(r.logging, src)
    &&& service_read(r.gateway, src, "gateway"@, "gateway.host"@, "gateway.port"@)
    &&& service_read(r.core, src, "core"@, "core.host"@, "core.port"@)
    &&& analytics_read(r.analytics, src)
}

/// Looks up every setting the configuration types define. The keys of each
/// table come in the order of the configuration's map.
pub fn read_app_settings(cfg: &LayeredConfig) -> (r: RawAppSettings)
    ensures
        plain_environment(cfg.sources().env) ==> app_read(r, cfg.sources()),
{
    RawAppSettings {
        root: lookup(root_keys(cfg)),
        redis: read_redis(cfg),
        database: read_database(cfg),
        logging: read_logging(cfg),
        gateway: read_service(cfg, "gateway", "gateway.host", "gateway.port"),
        core: read_service(cfg, "core", "core.host", "core.port"),
        analytics: read_analytics(cfg),
    }
}

/// The environment settings the services read: variables named
/// `APP_<TABLE>__<FIELD>`, with values parsed as booleans and numbers where
/// they read as such.
pub open spec fn app_env(vars: Seq<(String, String)>) -> EnvSettings {
    EnvSettings { prefix: "APP"@, prefix_separator: "_"@, separator: "__"@, try_parsing: true, vars: var_views(vars) }
}

/// The sources of a configuration: the document `document`, in the format
/// `format`, under the environment variables `vars`.
pub open spec fn app_sources(document: Seq<char>, format: FileKind, vars: Seq<(String, String)>) -> LayerSources {
    LayerSources { document, format, env: app_env(vars) }
}

/// The environment source: variables named `APP_<TABLE>__<FIELD>`, with
/// values parsed as booleans and numbers where they read as such.
pub fn app_environment(vars: Vec<(String, String)>) -> (e: EnvironmentSource)
    ensures
        e.settings() == app_env(vars@),
{
    environment_source("APP", "_", "__", true, vars)
}

/// Layers the environment variables `vars` over the document `document`,
/// read in the format `format`.
fn layered(document: &str, format: FileKind, vars: Vec<(String, String)>) -> (r: Result<LayeredConfig, ConfigFailure>)
    ensures
        r matches Ok(c) ==> c.sources() == app_sources(document@, format, vars@),
        r matches Err(e) ==> e is Source,
        plain_environment(app_env(vars@)) ==> match config_build(app_sources(document@, format, vars@)) {
            Ok(_) => r is Ok,
            Err(m) => r matches Err(ConfigFailure::Source { message }) && message@ == m,
        },
{
    match build_layered(document, format, app_environment(vars)) {
        Ok(cfg) => Ok(cfg),
        Err(message) => Err(ConfigFailure::Source { message }),
    }
}

/// Whether `r` is what settling the raw settings `raw` gives.
pub open spec fn app_settled(raw: RawAppSettings, r: Result<AppConfig, ConfigFailure>) -> bool {
    &&& app_fault(raw) matches Some(f) ==> r matches Err(e) && fault_reported(e, f)
    &&& app_fault(raw) is None ==> exists|c: AppConfig|
        #![auto]
        app_decoded(raw, c) && match app_problem(c) {
            Some(p) => r matches Err(ConfigFailure::Invalid { field, message }) && field@ == p.0 && message@ == p.1,
            None => r == Ok::<AppConfig, ConfigFailure>(c),
        }
}

/// What loading the document `document`, in the format `format`, under the
/// environment variables `vars` gives: when the environment is plain, a
/// failed build is a source error, and otherwise the result is the settling
/// of what the sources hold (the keys of each table taken in some order).
pub open spec fn app_loaded(
    document: Seq<char>,
    format: FileKind,
    vars: Seq<(String, String)>,
    r: Result<AppConfig, ConfigFailure>,
) -> bool {
    plain_environment(app_env(vars)) ==> match config_build(app_sources(document, format, vars)) {
        Err(m) => r matches Err(ConfigFailure::Source { message }) && message@ == m,
        Ok(_) => exists|raw: RawAppSettings|
            #[trigger] app_read(raw, app_sources(document, format, vars)) && app_settled(raw, r),
    }
}

/// Loads the whole configuration from the document `document`, in the
/// format `format`, and the environment variables `vars`. A loaded
/// configuration passes validation.
pub fn load_document(document: &str, format: FileKind, vars: Vec<(String, String)>) -> (r: Result<
    AppConfig,
    ConfigFailure,
>)
    ensures
        r matches Ok(c) ==> app_problem(c) is None,
        app_loaded(document@, format, vars@, r),
{
    let ghost v = vars@;
    let cfg = match layered(document, format, vars) {
        Ok(c) => c,
        Err(e) => return Err(e),
    };
    let raw = read_app_settings(&cfg);
    let r = settle_app_config(raw);
    assert(plain_environment(app_env(v)) ==> app_read(raw, app_sources(document@, format, v)) && app_settled(raw, r));
    r
}

/// Loads the whole configuration from the TOML document `toml` and the
/// environment variables `vars`. A loaded configuration passes validation.
pub fn load_toml(toml: &str, vars: Vec<(String, String)>) -> (r: Result<AppConfig, ConfigFailure>)
    ensures
        r matches Ok(c) ==> app_problem(c) is None,
        app_loaded(toml@, FileKind::Toml, vars@, r),
{
    load_document(toml, FileKind::Toml, vars)
}

/// Decodes the `database` table alone, ignoring every other key, and
/// validates it.
pub fn settle_database_config(raw: RawDatabase) -> (r: Result<DatabaseConfig, ConfigFailure>)
    ensures
        database_fault(raw) matches Some(f) ==> r matches Err(e) && fault_reported(e, f),
        database_fault(raw) is None ==> exists|c: DatabaseConfig|
            #![auto]
            database_decoded(raw, c) && match database_problem(c) {
                Some(p) => r matches Err(ConfigFailure::Invalid { field, message }) && field@ == p.0 && message@
                    == p.1,
                None => r == Ok::<DatabaseConfig, ConfigFailure>(c),
            },
{
    let database = match decode_database(raw) {
        Ok(c) => c,
        Err(e) => return Err(e),
    };
    match database.validate() {
        Ok(()) => Ok(database),
        Err(e) => Err(e),
    }
}

/// Loads the database settings alone from the TOML document `toml` and the
/// environment variables `vars`; other tables are not examined.
pub fn load_database_toml(toml: &str, vars: Vec<(String, String)>) -> (r: Result<DatabaseConfig, ConfigFailure>)
    ensures
        r matches Ok(c) ==> database_problem(c) is None,
        database_loaded(toml@, FileKind::Toml, vars@, r),
{
    load_database_document(toml, FileKind::Toml, vars)
}

/// Loads the database settings alone from the document `document`, in the
/// format `format`, and the environment variables `vars`; other tables are
/// not examined.
pub fn load_database_document(document: &str, format: FileKind, vars: Vec<(String, String)>) -> (r: Result<
    DatabaseConfig,
    ConfigFailure,
>)
    ensures
        r matches Ok(c) ==> database_problem(c) is None,
        database_loaded(document@, format, vars@, r),
{
    let ghost v = vars@;
    let cfg = match layered(document, format, vars) {
        Ok(c) => c,
        Err(e) => return Err(e),
    };
    let raw = read_database(&cfg);
    let r = settle_database_config(raw);
    assert(plain_environment(app_env(v)) ==> database_read(raw, app_sources(document@, format, v))
        && database_settled(raw, r));
    r
}

/// Whether `r` is what settling the raw database settings `raw` gives.
pub open spec fn database_settled(raw: RawDatabase, r: Result<DatabaseConfig, ConfigFailure>) -> bool {
    &&& database_fault(raw) matches Some(f) ==> r matches Err(e) && fault_reported(e, f)
    &&& database_fault(raw) is None ==> exists|c: DatabaseConfig|
        #![auto]
        database_decoded(raw, c) && match database_problem(c) {
            Some(p) => r matches Err(ConfigFailure::Invalid { field, message }) && field@ == p.0 && message@ == p.1,
            None => r == Ok::<DatabaseConfig, ConfigFailure>(c),
        }
}

/// What loading the database settings of the document `document`, in the
/// format `format`, under the environment variables `vars` gives, as
/// `app_loaded` for the whole.
pub open spec fn database_loaded(
    document: Seq<char>,
    format: FileKind,
    vars: Seq<(String, String)>,
    r: Result<DatabaseConfig, ConfigFailure>,
) -> bool {
    plain_environment(app_env(vars)) ==> match config_build(app_sources(document, format, vars)) {
        Err(m) => r matches Err(ConfigFailure::Source { message }) && message@ == m,
        Ok(_) => exists|raw: RawDatabase|
            #[trigger] database_read(raw, app_sources(document, format, vars)) && database_settled(raw, r),
    }
}


/// The environment variable that names the configuration file.
pub const CONFIG_FILE_ENV: &'static str = "KURLYK_CONFIG_FILE";

/// The configuration file read when `CONFIG_FILE_ENV` is not set.
pub const DEFAULT_CONFIG_FILE: &'static str = "./config/config.toml";

/// The configuration file to read, and whether it must exist.
#[derive(Debug)]
pub struct ConfigFile {
    pub path: String,
    pub required: bool,
}

/// Chooses the configuration file: an explicitly named file must exist and
/// may not be named by an empty path; the fallback file is optional.
pub fn config_file(explicit_path: Option<&str>, fallback_path: &str) -> (r: Result<ConfigFile, ConfigFailure>)
    ensures
        match explicit_path {
            Some(p) => if p@.len() == 0 {
                r matches Err(ConfigFailure::EmptyPath { variable }) && variable@ == CONFIG_FILE_ENV@
            } else {
                r matches Ok(f) && f.path@ == p@ && f.required
            },
            None => r matches Ok(f) && f.path@ == fallback_path@ && !f.required,
        },
{
    match explicit_path {
        Some(path) => if path.is_empty() {
            Err(ConfigFailure::EmptyPath { variable: String::from_str(CONFIG_FILE_ENV) })
        } else {
            Ok(ConfigFile { path: String::from_str(path), required: true })
        },
        None => Ok(ConfigFile { path: String::from_str(fallback_path), required: false }),
    }
}

/// The text of a configuration file and the format it is read in.
#[derive(Debug)]
pub struct ConfigText {
    pub text: String,
    pub format: FileKind,
}

/// The formats in the order `config` tries them when it looks for a file by
/// its extension.
pub open spec fn kind_order() -> Seq<FileKind> {
    seq![FileKind::Toml, FileKind::Json, FileKind::Yaml, FileKind::Ini, FileKind::Ron, FileKind::Json5]
}

/// The first format of `kinds` that `config` reads files with the extension
/// `ext` as.
pub open spec fn first_kind_for(kinds: Seq<FileKind>, ext: Seq<char>) -> Option<FileKind>
    decreases kinds.len(),
{
    if kinds.len() == 0 {
        None
    } else if kind_extensions(kinds[0]).contains(ext) {
        Some(kinds[0])
    } else {
        first_kind_for(kinds.drop_first(), ext)
    }
}

/// The formats, in the order `config` tries them.
pub fn file_kinds() -> (v: Vec<FileKind>)
    ensures
        v@ == kind_order(),
{
    let v = vec![FileKind::Toml, FileKind::Json, FileKind::Yaml, FileKind::Ini, FileKind::Ron, FileKind::Json5];
    assert(v@ =~= kind_order());
    v
}

/// The extensions of files `config` reads in the format `kind`.
pub fn extensions_of(kind: FileKind) -> (v: Vec<String>)
    ensures
        v@.map_values(|e: String| e@) == kind_extensions(kind),
{
    file_extensions(kind)
}

/// The format `config` reads a file with the extension `ext` in, if any.
pub fn format_for_extension(ext: &str) -> (r: Option<FileKind>)
    ensures
        r == first_kind_for(kind_order(), ext@),
{
    let kinds = file_kinds();
    assert(kind_order().subrange(0, 6) =~= kind_order());
    let mut i: usize = 0;
    while i < kinds.len()
        invariant
            i <= kinds.len(),
            kinds@ == kind_order(),
            first_kind_for(kind_order(), ext@) == first_kind_for(kind_order().subrange(i as int, 6), ext@),
        decreases kinds.len() - i,
    {
        let kind = kinds[i];
        let exts = file_extensions(kind);
        let ghost rest = kind_order().subrange(i as int, 6);
        assert(rest[0] == kind);
        assert(rest.drop_first() =~= kind_order().subrange(i + 1, 6));
        let mut j: usize = 0;
        while j < exts.len()
            invariant
                j <= exts.len(),
                exts@.map_values(|e: String| e@) == kind_extensions(kind),
                forall|k: int| 0 <= k < j ==> kind_extensions(kind)[k] != ext@,
                0 <= i < 6,
                rest == kind_order().subrange(i as int, 6),
                rest[0] == kind,
                first_kind_for(kind_order(), ext@) == first_kind_for(rest, ext@),
            decreases exts.len() - j,
        {
            assert(exts@.map_values(|e: String| e@)[j as int] == exts@[j as int]@);
            if str_equal(exts[j].as_str(), ext) {
                assert(kind_extensions(kind)[j as int] == ext@);
                assert(kind_extensions(kind).contains(ext@));
                return Some(kind);
            }
            j = j + 1;
        }
        assert(!kind_extensions(kind).contains(ext@));
        i = i + 1;
    }
    assert(kind_order().subrange(6, 6).len() == 0);
    None
}

/// The sources of a configuration once read: the chosen file, its text and
/// format (`None` when no file was found) and the process's environment
/// variables.
#[derive(Debug)]
pub struct ConfigSource {
    pub file: ConfigFile,
    pub contents: Option<ConfigText>,
    pub vars: Vec<(String, String)>,
}

/// What loading the whole configuration from `source` gives: a missing
/// required file is reported, a missing optional file counts as an empty
/// document, and the document is loaded as `app_loaded` says.
pub open spec fn app_load_outcome(source: ConfigSource, r: Result<AppConfig, ConfigFailure>) -> bool {
    match source.contents {
        Some(t) => app_loaded(t.text@, t.format, source.vars@, r),
        None => if source.file.required {
            r matches Err(ConfigFailure::NotFound { path }) && path@ == source.file.path@
        } else {
            app_loaded(""@, FileKind::Toml, source.vars@, r)
        },
    }
}

impl AppConfig {
    /// Loads and validates the whole configuration. A required file that does
    /// not exist is an error; a missing optional file counts as empty.
    pub fn load(source: ConfigSource) -> (r: Result<AppConfig, ConfigFailure>)
        ensures
            source.contents is None && source.file.required ==> (r matches Err(ConfigFailure::NotFound { path })
                && path@ == source.file.path@),
            r matches Ok(c) ==> app_problem(c) is None,
            app_load_outcome(source, r),
    {
        match source.contents {
            Some(t) => load_document(t.text.as_str(), t.format, source.vars),
            None => if source.file.required {
                Err(ConfigFailure::NotFound { path: source.file.path })
            } else {
                load_toml("", source.vars)
            },
        }
    }
}

/// Loads and validates the database settings alone.
pub fn load_database(source: ConfigSource) -> (r: Result<DatabaseConfig, ConfigFailure>)
    ensures
        source.contents is None && source.file.required ==> (r matches Err(ConfigFailure::NotFound { path })
            && path@ == source.file.path@),
        r matches Ok(c) ==> database_problem(c) is None,
        match source.contents {
            Some(t) => database_loaded(t.text@, t.format, source.vars@, r),
            None => !source.file.required ==> database_loaded(""@, FileKind::Toml, source.vars@, r),
        },
{
    match source.contents {
        Some(t) => load_database_document(t.text.as_str(), t.format, source.vars),
        None => if source.file.required {
            Err(ConfigFailure::NotFound { path: source.file.path })
        } else {
            load_database_toml("", source.vars)
        },
    }
}

/// Loads and validates the whole configuration and cuts from it the part a
/// service receives.
pub fn load<T: From<AppConfig>>(source: ConfigSource) -> (r: Result<T, ConfigFailure>)
    ensures
        source.contents is None && source.file.required ==> (r matches Err(ConfigFailure::NotFound { path })
            && path@ == source.file.path@),
        r matches Ok(t) ==> exists|c: AppConfig| app_problem(c) is None && call_ensures(T::from, (c,), t),
        exists|a: Result<AppConfig, ConfigFailure>|
            #![auto]
            app_load_outcome(source, a) && (a matches Ok(c) ==> app_problem(c) is None) && match a {
                Ok(c) => r matches Ok(t) && call_ensures(T::from, (c,), t),
                Err(e) => r == Err::<T, ConfigFailure>(e),
            },
{
    let ghost src = source;
    let loaded = AppConfig::load(source);
    let ghost a = loaded;
    let r = match loaded {
        Ok(c) => Ok(T::from(c)),
        Err(e) => Err(e),
    };
    assert(app_load_outcome(src, a));
    r
}

} // verus!
