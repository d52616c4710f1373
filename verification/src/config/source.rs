//! Calls into the `config` crate, which layers a TOML document and
//! environment variables and answers lookups of dotted keys.
//!
//! A built configuration keeps the sources it was built from, so that what a
//! lookup answers can be named as a function of those sources and the key.
//! The crate merges the environment variables in the order of a hash map, so
//! the naming is claimed only for environments whose prefixed variables
//! cannot land on the same setting, or on a setting and one inside it
//! (`plain_environment`); variables without the prefix are skipped by the
//! crate and do not count.

use vstd::prelude::*;

verus! {

#[verifier::external_type_specification]
#[verifier::external_body]
pub struct ExtLayeredConfig(::config::Config);

#[verifier::external_type_specification]
#[verifier::external_body]
pub struct ExtEnvironmentSource(::config::Environment);

/// Why a lookup failed: no source defines the key, or another failure, by
/// its `Display` text.
#[derive(Debug)]
pub enum LookupError {
    NotFound,
    Failed(String),
}

/// The settings of an environment source: the prefix and separators of the
/// variable names, whether values are parsed, and the variables themselves.
pub struct EnvSettings {
    pub prefix: Seq<char>,
    pub prefix_separator: Seq<char>,
    pub separator: Seq<char>,
    pub try_parsing: bool,
    pub vars: Seq<(Seq<char>, Seq<char>)>,
}

/// The formats a configuration document may be written in, as
/// `config::FileFormat` names them.
#[derive(Clone, Copy, Debug, PartialEq, Eq, Structural)]
pub enum FileKind {
    Toml,
    Json,
    Yaml,
    Ini,
    Ron,
    Json5,
}

/// The file extensions `config` reads as `kind`.
pub open spec fn kind_extensions(kind: FileKind) -> Seq<Seq<char>> {
    match kind {
        FileKind::Toml => seq!["toml"@],
        FileKind::Json => seq!["json"@],
        FileKind::Yaml => seq!["yaml"@, "yml"@],
        FileKind::Ini => seq!["ini"@],
        FileKind::Ron => seq!["ron"@],
        FileKind::Json5 => seq!["json5"@],
    }
}

/// The sources of a layered configuration: a document in the format
/// `format` under an environment source.
pub struct LayerSources {
    pub document: Seq<char>,
    pub format: FileKind,
    pub env: EnvSettings,
}

pub open spec fn var_views(vars: Seq<(String, String)>) -> Seq<(Seq<char>, Seq<char>)> {
    vars.map_values(|v: (String, String)| (v.0@, v.1@))
}

/// A character of a portable variable name: an ASCII letter or digit, or `_`.
pub open spec fn is_name_char(c: char) -> bool {
    ('A' <= c && c <= 'Z') || ('a' <= c && c <= 'z') || ('0' <= c && c <= '9') || c == '_'
}

/// The ASCII lowercase of a portable name.
pub open spec fn ascii_lower(s: Seq<char>) -> Seq<char> {
    s.map_values(|c: char| if 'A' <= c && c <= 'Z' { ((c as u32) + 32) as char } else { c })
}

/// Whether every character of `s` is ASCII.
pub open spec fn is_ascii(s: Seq<char>) -> bool {
    forall|k: int| 0 <= k < s.len() ==> (#[trigger] s[k] as u32) < 128
}

/// A variable the environment source skips before reading it: its name
/// cannot begin, once lowercased, with the prefix and prefix separator
/// (`pattern`, ASCII), because its first characters are ASCII and differ
/// from the pattern's ignoring case, or it is ASCII and shorter.
pub open spec fn is_foreign(name: Seq<char>, pattern: Seq<char>) -> bool {
    if name.len() < pattern.len() {
        is_ascii(name)
    } else {
        is_ascii(name.take(pattern.len() as int)) && ascii_lower(name.take(pattern.len() as int)) != ascii_lower(
            pattern,
        )
    }
}

/// The prefix and prefix separator a variable's name must begin with.
pub open spec fn name_pattern(env: EnvSettings) -> Seq<char> {
    env.prefix + env.prefix_separator
}

/// Environments whose variables the crate merges in one way only. Variables
/// the source skips for their prefix do not matter. Of the others, every
/// name is portable, no two names are equal ignoring case, and no name
/// (with the separator after it) begins another, so that no two variables
/// set the same setting, or a setting and one inside it.
pub open spec fn plain_environment(env: EnvSettings) -> bool {
    &&& is_ascii(name_pattern(env))
    &&& forall|i: int, k: int|
        0 <= i < env.vars.len() && !is_foreign(env.vars[i].0, name_pattern(env)) && 0 <= k < env.vars[i].0.len()
            ==> is_name_char(#[trigger] env.vars[i].0[k])
    &&& forall|i: int, j: int|
        0 <= i < env.vars.len() && 0 <= j < env.vars.len() && i != j && !is_foreign(env.vars[i].0, name_pattern(env))
            && !is_foreign(env.vars[j].0, name_pattern(env)) ==> {
            &&& ascii_lower(#[trigger] env.vars[i].0) != ascii_lower(#[trigger] env.vars[j].0)
            &&& !(ascii_lower(env.vars[i].0) + env.separator).is_prefix_of(ascii_lower(env.vars[j].0))
        }
}

/// Whether `Config::builder()` with the TOML document and then the
/// environment source as its sources builds; the error's text otherwise.
pub uninterp spec fn config_build(sources: LayerSources) -> Result<(), Seq<char>>;

/// What `Config::get::<String>(key)` answers: the text, or `Err(None)` when
/// no source defines the key, or `Err(Some(text))` with the error's text.
pub uninterp spec fn config_string(sources: LayerSources, key: Seq<char>) -> Result<Seq<char>, Option<Seq<char>>>;

/// What `Config::get::<Option<String>>(key)` answers, as for `config_string`.
pub uninterp spec fn config_optional_string(sources: LayerSources, key: Seq<char>) -> Result<
    Option<Seq<char>>,
    Option<Seq<char>>,
>;

/// What `Config::get::<u16>(key)` answers, as for `config_string`.
pub uninterp spec fn config_u16(sources: LayerSources, key: Seq<char>) -> Result<u16, Option<Seq<char>>>;

/// What `Config::get::<u64>(key)` answers, as for `config_string`.
pub uninterp spec fn config_u64(sources: LayerSources, key: Seq<char>) -> Result<u64, Option<Seq<char>>>;

/// What `Config::get::<usize>(key)` answers, as for `config_string`.
pub uninterp spec fn config_usize(sources: LayerSources, key: Seq<char>) -> Result<usize, Option<Seq<char>>>;

/// What `Config::get::<bool>(key)` answers, as for `config_string`.
pub uninterp spec fn config_bool(sources: LayerSources, key: Seq<char>) -> Result<bool, Option<Seq<char>>>;

/// The set of keys of the table `Config::get_table(key)` answers, as for
/// `config_string`.
pub uninterp spec fn config_table_keys(sources: LayerSources, key: Seq<char>) -> Result<
    Set<Seq<char>>,
    Option<Seq<char>>,
>;

/// The set of keys of the root table (the built `cache` turned into a
/// table), as for `config_string`.
pub uninterp spec fn config_root_keys(sources: LayerSources) -> Result<Set<Seq<char>>, Option<Seq<char>>>;

/// Whether a failed lookup is the one the name answers.
pub open spec fn failure_is(e: LookupError, a: Option<Seq<char>>) -> bool {
    match a {
        None => e is NotFound,
        Some(m) => e matches LookupError::Failed(t) && t@ == m,
    }
}

pub open spec fn text_is(r: Result<String, LookupError>, a: Result<Seq<char>, Option<Seq<char>>>) -> bool {
    match a {
        Ok(v) => r matches Ok(t) && t@ == v,
        Err(f) => r matches Err(e) && failure_is(e, f),
    }
}

pub open spec fn optional_text_is(
    r: Result<Option<String>, LookupError>,
    a: Result<Option<Seq<char>>, Option<Seq<char>>>,
) -> bool {
    match a {
        Ok(None) => r == Ok::<Option<String>, LookupError>(None),
        Ok(Some(v)) => r matches Ok(Some(t)) && t@ == v,
        Err(f) => r matches Err(e) && failure_is(e, f),
    }
}

pub open spec fn value_is<T>(r: Result<T, LookupError>, a: Result<T, Option<Seq<char>>>) -> bool {
    match a {
        Ok(v) => r == Ok::<T, LookupError>(v),
        Err(f) => r matches Err(e) && failure_is(e, f),
    }
}

pub open spec fn keys_are(r: Result<Vec<String>, LookupError>, a: Result<Set<Seq<char>>, Option<Seq<char>>>) -> bool {
    match a {
        Ok(set) => r matches Ok(ks) && ks@.map_values(|k: String| k@).no_duplicates() && ks@.map_values(
            |k: String| k@,
        ).to_set() == set,
        Err(f) => r matches Err(e) && failure_is(e, f),
    }
}

/// An environment source and the settings it was made with.
pub struct EnvironmentSource {
    env: ::config::Environment,
    prefix: String,
    prefix_separator: String,
    separator: String,
    try_parsing: bool,
    vars: Vec<(String, String)>,
}

impl EnvironmentSource {
    pub closed spec fn settings(self) -> EnvSettings {
        EnvSettings {
            prefix: self.prefix@,
            prefix_separator: self.prefix_separator@,
            separator: self.separator@,
            try_parsing: self.try_parsing,
            vars: var_views(self.vars@),
        }
    }
}

/// A built configuration and the sources it was built from.
pub struct LayeredConfig {
    cfg: ::config::Config,
    document: String,
    format: FileKind,
    env: EnvSettingsCopy,
}

/// The settings of the environment source a configuration was built with.
struct EnvSettingsCopy {
    prefix: String,
    prefix_separator: String,
    separator: String,
    try_parsing: bool,
    vars: Vec<(String, String)>,
}

impl LayeredConfig {
    pub closed spec fn sources(self) -> LayerSources {
        LayerSources {
            document: self.document@,
            format: self.format,
            env: EnvSettings {
                prefix: self.env.prefix@,
                prefix_separator: self.env.prefix_separator@,
                separator: self.env.separator@,
                try_parsing: self.env.try_parsing,
                vars: var_views(self.env.vars@),
            },
        }
    }
}

/// `::config::Environment::with_prefix(prefix)` configured with the given
/// separators and parsing flag, reading `vars` in place of the process
/// environment; the source keeps these settings beside it.
#[verifier::external_body]
pub(crate) fn environment_source(
    prefix: &str,
    prefix_separator: &str,
    separator: &str,
    try_parsing: bool,
    vars: Vec<(String, String)>,
) -> (r: EnvironmentSource)
    ensures
        r.settings() == (EnvSettings {
            prefix: prefix@,
            prefix_separator: prefix_separator@,
            separator: separator@,
            try_parsing,
            vars: var_views(vars@),
        }),
{
    let env = ::config::Environment::with_prefix(prefix).prefix_separator(prefix_separator).separator(
        separator,
    ).try_parsing(try_parsing).source(Some(vars.iter().cloned().collect()));
    EnvironmentSource {
        env,
        prefix: prefix.to_string(),
        prefix_separator: prefix_separator.to_string(),
        separator: separator.to_string(),
        try_parsing,
        vars,
    }
}

#[verifier::external_type_specification]
#[verifier::external_body]
pub struct ExtFileFormat(::config::FileFormat);

/// The `config::FileFormat` that `kind` names.
#[verifier::external_body]
fn file_format(kind: FileKind) -> ::config::FileFormat {
    match kind {
        FileKind::Toml => ::config::FileFormat::Toml,
        FileKind::Json => ::config::FileFormat::Json,
        FileKind::Yaml => ::config::FileFormat::Yaml,
        FileKind::Ini => ::config::FileFormat::Ini,
        FileKind::Ron => ::config::FileFormat::Ron,
        FileKind::Json5 => ::config::FileFormat::Json5,
    }
}

/// `FileFormat::file_extensions()` of the format `kind`: the extensions
/// `config` reads as that format.
#[verifier::external_body]
pub(crate) fn file_extensions(kind: FileKind) -> (r: Vec<String>)
    ensures
        r@.map_values(|e: String| e@) == kind_extensions(kind),
{
    ::config::FileStoredFormat::file_extensions(&file_format(kind)).iter().map(|e| e.to_string()).collect()
}

/// `::config::Config::builder()` with the document `document`, read in the format
/// `format`, as the first source and `environment` layered over it, then
/// `build()`; the error's `Display` text when it fails. The built
/// configuration keeps its sources.
#[verifier::external_body]
pub(crate) fn build_layered(document: &str, format: FileKind, environment: EnvironmentSource) -> (r: Result<
    LayeredConfig,
    String,
>)
    ensures
        r matches Ok(c) ==> c.sources() == (LayerSources { document: document@, format, env: environment.settings() }),
        plain_environment(environment.settings()) ==> match config_build(
            LayerSources { document: document@, format, env: environment.settings() },
        ) {
            Ok(_) => r is Ok,
            Err(m) => r matches Err(t) && t@ == m,
        },
{
    let EnvironmentSource { env, prefix, prefix_separator, separator, try_parsing, vars } = environment;
    let file = ::config::File::from_str(document, file_format(format));
    match ::config::Config::builder().add_source(file).add_source(env).build() {
        Ok(cfg) => Ok(LayeredConfig {
            cfg,
            document: document.to_string(),
            format,
            env: EnvSettingsCopy { prefix, prefix_separator, separator, try_parsing, vars },
        }),
        Err(e) => Err(format!("{e}")),
    }
}

/// `Config::get::<String>(key)`: the value at `key` coerced to a string.
#[verifier::external_body]
pub(crate) fn get_string(cfg: &LayeredConfig, key: &str) -> (r: Result<String, LookupError>)
    ensures
        plain_environment(cfg.sources().env) ==> text_is(r, config_string(cfg.sources(), key@)),
{
    match cfg.cfg.get::<String>(key) {
        Ok(v) => Ok(v),
        Err(::config::ConfigError::NotFound(_)) => Err(LookupError::NotFound),
        Err(e) => Err(LookupError::Failed(format!("{e}"))),
    }
}

/// `Config::get::<Option<String>>(key)`: `None` for an explicit nil, the value
/// coerced to a string otherwise.
#[verifier::external_body]
pub(crate) fn get_optional_string(cfg: &LayeredConfig, key: &str) -> (r: Result<Option<String>, LookupError>)
    ensures
        plain_environment(cfg.sources().env) ==> optional_text_is(r, config_optional_string(cfg.sources(), key@)),
{
    match cfg.cfg.get::<Option<String>>(key) {
        Ok(v) => Ok(v),
        Err(::config::ConfigError::NotFound(_)) => Err(LookupError::NotFound),
        Err(e) => Err(LookupError::Failed(format!("{e}"))),
    }
}

/// `Config::get::<u16>(key)`: the value at `key` as an unsigned 16-bit integer.
#[verifier::external_body]
pub(crate) fn get_u16(cfg: &LayeredConfig, key: &str) -> (r: Result<u16, LookupError>)
    ensures
        plain_environment(cfg.sources().env) ==> value_is(r, config_u16(cfg.sources(), key@)),
{
    match cfg.cfg.get::<u16>(key) {
        Ok(v) => Ok(v),
        Err(::config::ConfigError::NotFound(_)) => Err(LookupError::NotFound),
        Err(e) => Err(LookupError::Failed(format!("{e}"))),
    }
}

/// `Config::get::<u64>(key)`: the value at `key` as an unsigned 64-bit integer.
#[verifier::external_body]
pub(crate) fn get_u64(cfg: &LayeredConfig, key: &str) -> (r: Result<u64, LookupError>)
    ensures
        plain_environment(cfg.sources().env) ==> value_is(r, config_u64(cfg.sources(), key@)),
{
    match cfg.cfg.get::<u64>(key) {
        Ok(v) => Ok(v),
        Err(::config::ConfigError::NotFound(_)) => Err(LookupError::NotFound),
        Err(e) => Err(LookupError::Failed(format!("{e}"))),
    }
}

/// `Config::get::<usize>(key)`: the value at `key` as a `usize`.
#[verifier::external_body]
pub(crate) fn get_usize(cfg: &LayeredConfig, key: &str) -> (r: Result<usize, LookupError>)
    ensures
        plain_environment(cfg.sources().env) ==> value_is(r, config_usize(cfg.sources(), key@)),
{
    match cfg.cfg.get::<usize>(key) {
        Ok(v) => Ok(v),
        Err(::config::ConfigError::NotFound(_)) => Err(LookupError::NotFound),
        Err(e) => Err(LookupError::Failed(format!("{e}"))),
    }
}

/// `Config::get::<bool>(key)`: the value at `key` coerced to a boolean.
#[verifier::external_body]
pub(crate) fn get_bool(cfg: &LayeredConfig, key: &str) -> (r: Result<bool, LookupError>)
    ensures
        plain_environment(cfg.sources().env) ==> value_is(r, config_bool(cfg.sources(), key@)),
{
    match cfg.cfg.get::<bool>(key) {
        Ok(v) => Ok(v),
        Err(::config::ConfigError::NotFound(_)) => Err(LookupError::NotFound),
        Err(e) => Err(LookupError::Failed(format!("{e}"))),
    }
}

/// `Config::get_table(key)`, keeping only the table's keys. A map's keys
/// are distinct; they come in the map's iteration order, which is not
/// stated.
#[verifier::external_body]
pub(crate) fn table_keys(cfg: &LayeredConfig, key: &str) -> (r: Result<Vec<String>, LookupError>)
    ensures
        plain_environment(cfg.sources().env) ==> keys_are(r, config_table_keys(cfg.sources(), key@)),
{
    match cfg.cfg.get_table(key) {
        Ok(table) => Ok(table.into_keys().collect()),
        Err(::config::ConfigError::NotFound(_)) => Err(LookupError::NotFound),
        Err(e) => Err(LookupError::Failed(format!("{e}"))),
    }
}

/// The keys of the root table (`cfg.cache.clone().into_table()`), distinct,
/// in the map's iteration order, which is not stated.
#[verifier::external_body]
pub(crate) fn root_keys(cfg: &LayeredConfig) -> (r: Result<Vec<String>, LookupError>)
    ensures
        plain_environment(cfg.sources().env) ==> keys_are(r, config_root_keys(cfg.sources())),
{
    match cfg.cfg.cache.clone().into_table() {
        Ok(table) => Ok(table.into_keys().collect()),
        Err(::config::ConfigError::NotFound(_)) => Err(LookupError::NotFound),
        Err(e) => Err(LookupError::Failed(format!("{e}"))),
    }
}

} // verus!
