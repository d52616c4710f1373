use kurlyk::config::loader::{
    config_file, extensions_of, file_kinds, format_for_extension, load_database_toml, load_document, load_toml, ConfigSource,
    ConfigText,
};
use kurlyk::config::source::FileKind;
use kurlyk::config::{AppConfig, ConfigFailure, Validate};
use kurlyk::time::TimeSpan;

fn environment(values: &[(&str, &str)]) -> Vec<(String, String)> {
    values.iter().map(|(key, value)| ((*key).to_string(), (*value).to_string())).collect()
}

fn load(contents: &str) -> Result<AppConfig, ConfigFailure> {
    load_toml(contents, environment(&[]))
}

fn assert_invalid(update: impl FnOnce(&mut AppConfig), field: &str) {
    let mut config = AppConfig::default();
    update(&mut config);

    let error = config.validate().unwrap_err().message();
    assert!(error.contains(field), "expected `{error}` to contain `{field}`");
}

#[test]
fn loads_defaults_without_a_file() {
    let config = load("").unwrap();

    assert_eq!(config.redis.host, "localhost");
    assert_eq!(config.redis.port, 6379);
    assert_eq!(config.redis.cache_ttl, TimeSpan::from_secs(300));
    assert_eq!(config.redis.streams.events, "Events");
    assert_eq!(config.database.host, "localhost");
    assert_eq!(config.database.port, 5432);
    assert_eq!(config.database.user, "postgres");
    assert_eq!(config.database.password, "postgres");
    assert_eq!(config.database.db_name, "kurlyk");
    assert_eq!(config.logging.level, "info");
    assert!(!config.logging.enabled);
    assert_eq!(config.logging.otlp_endpoint.as_deref(), Some("http://alloy:4317"));
    assert_eq!(config.gateway.host, "localhost");
    assert_eq!(config.gateway.port, 3000);
    assert_eq!(config.core.host, "localhost");
    assert_eq!(config.core.port, 3001);
    assert_eq!(config.analytics.host, "localhost");
    assert_eq!(config.analytics.port, 3002);
    assert_eq!(config.analytics.read_batch_size, 100);
    assert_eq!(config.analytics.read_block, TimeSpan::from_millis(250));
    assert_eq!(config.analytics.flush_interval, TimeSpan::from_secs(60));
}

#[test]
fn environment_overrides_file_and_handles_underscored_fields() {
    let config = load_toml(
        r#"
            [redis]
            host = "file-redis"
            cache_ttl_secs = 120

            [analytics]
            read_batch_size = 25
        "#,
        environment(&[
            ("APP_REDIS__HOST", "env-redis"),
            ("APP_ANALYTICS__READ_BATCH_SIZE", "50"),
        ]),
    )
    .unwrap();

    assert_eq!(config.redis.host, "env-redis");
    assert_eq!(config.redis.cache_ttl, TimeSpan::from_secs(120));
    assert_eq!(config.analytics.read_batch_size, 50);
}

#[test]
fn database_loader_ignores_unrelated_configuration() {
    let database = load_database_toml(
        r#"
            [database]
            host = "file-db"

            [analytics]
            read_batch_size = 0
        "#,
        environment(&[("APP_DATABASE__HOST", "env-db")]),
    )
    .unwrap();

    assert_eq!(database.host, "env-db");
}

#[test]
fn explicit_file_is_required_but_fallback_is_optional() {
    let missing = "/nonexistent/kurlyk-config-missing.toml";

    let file = config_file(Some(missing), "unused.toml").unwrap();
    let error = AppConfig::load(ConfigSource { file, contents: None, vars: environment(&[]) }).unwrap_err();
    assert!(error.message().contains("not found"));

    let file = config_file(None, missing).unwrap();
    let config = AppConfig::load(ConfigSource { file, contents: None, vars: environment(&[]) }).unwrap();
    assert_eq!(config.redis.streams.events, "Events");
}

#[test]
fn empty_explicit_path_is_rejected() {
    let error = config_file(Some(""), "unused.toml").unwrap_err();

    assert!(error.message().contains("must not be empty"));
}

#[test]
fn malformed_toml_is_rejected() {
    assert!(load("[redis").is_err());
}

#[test]
fn unknown_fields_are_rejected_at_every_level() {
    let top_level = load("unexpected = true").unwrap_err().message();
    assert!(top_level.contains("unexpected"));

    let nested = load(
        r#"
            [analytics]
            unexpected = true
        "#,
    )
    .unwrap_err()
    .message();
    assert!(nested.contains("unexpected"));
}

#[test]
fn validates_required_strings() {
    assert_invalid(|config| config.redis.host = " ".into(), "redis.host");
    assert_invalid(|config| config.redis.streams.events.clear(), "redis.streams.events");
    assert_invalid(|config| config.database.host.clear(), "database.host");
    assert_invalid(|config| config.database.user.clear(), "database.user");
    assert_invalid(|config| config.database.db_name.clear(), "database.db_name");
    assert_invalid(|config| config.logging.level.clear(), "logging.level");
    assert_invalid(|config| config.gateway.host.clear(), "gateway.host");
    assert_invalid(|config| config.core.host.clear(), "core.host");
    assert_invalid(|config| config.analytics.host.clear(), "analytics.host");
}

#[test]
fn validates_ports() {
    assert_invalid(|config| config.redis.port = 0, "redis.port");
    assert_invalid(|config| config.database.port = 0, "database.port");
    assert_invalid(|config| config.gateway.port = 0, "gateway.port");
    assert_invalid(|config| config.core.port = 0, "core.port");
    assert_invalid(|config| config.analytics.port = 0, "analytics.port");
}

#[test]
fn validates_operational_limits() {
    assert_invalid(|config| config.redis.cache_ttl = TimeSpan::zero(), "redis.cache_ttl_secs");
    assert_invalid(
        |config| config.analytics.read_batch_size = 0,
        "analytics.read_batch_size",
    );
    assert_invalid(
        |config| config.analytics.read_block = TimeSpan::zero(),
        "analytics.read_block_millis",
    );
    assert_invalid(
        |config| config.analytics.flush_interval = TimeSpan::zero(),
        "analytics.flush_interval_secs",
    );
}

#[test]
fn allows_empty_database_password_and_missing_otlp_endpoint() {
    let mut config = AppConfig::default();
    config.database.password.clear();
    config.logging.otlp_endpoint = None;

    config.validate().unwrap();
}

#[test]
fn file_formats_follow_the_extension() {
    assert_eq!(format_for_extension("toml"), Some(FileKind::Toml));
    assert_eq!(format_for_extension("json"), Some(FileKind::Json));
    assert_eq!(format_for_extension("yml"), Some(FileKind::Yaml));
    assert_eq!(format_for_extension("yaml"), Some(FileKind::Yaml));
    assert_eq!(format_for_extension("json5"), Some(FileKind::Json5));
    assert_eq!(format_for_extension("txt"), None);
    assert_eq!(file_kinds().len(), 6);
    assert_eq!(extensions_of(FileKind::Yaml), vec!["yaml".to_string(), "yml".to_string()]);
}

#[test]
fn a_json_file_is_read_as_json() {
    let file = config_file(Some("config.json"), "unused.toml").unwrap();
    let contents = Some(ConfigText { text: r#"{"redis": {"port": 6380}}"#.to_string(), format: FileKind::Json });
    let config = AppConfig::load(ConfigSource { file, contents, vars: environment(&[]) }).unwrap();
    assert_eq!(config.redis.port, 6380);
    let error = load_document(r#"{"redis": {"port": 6380}}"#, FileKind::Toml, environment(&[])).unwrap_err();
    assert!(matches!(error, ConfigFailure::Source { .. }));
}

#[test]
fn other_programs_variables_do_not_matter() {
    let vars = environment(&[
        ("http_proxy", "a"),
        ("HTTP_PROXY", "b"),
        ("CommonProgramFiles(x86)", "c"),
        ("APP_REDIS__PORT", "6390"),
    ]);
    let config = load_toml("", vars).unwrap();
    assert_eq!(config.redis.port, 6390);
}
