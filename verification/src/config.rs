//! The configuration of a run: its defaults, and how a file, the
//! environment and the command line change it.

use crate::cli::{
    cache_dir_below, check_threads, comma_list, default_cache_dir, find_bad_extension,
    first_bad_extension, parse_comma_list, threads_defect, Cli, OutputFormat,
};
use crate::decimal::{parse_truth, parse_unsigned_up_to, read_truth, read_unsigned};
use crate::duration::{Duration, NANOS_PER_MILLI, NANOS_PER_SEC};
use crate::error::IoFailure;
use crate::error_reporter::VerbosityLevel;
use crate::http_client::HttpClientConfig;
use crate::paths::{extension, extension_of, join};
use crate::text::{chars_of, concat2, concat4, lowercase, same_text, str_is, string_of, to_lowercase};
use vstd::prelude::*;
use vstd::std_specs::convert::FromSpecImpl;

verus! {

/// Where the values of environment variables come from.
pub trait EnvProvider {
    /// Whether `value` is an answer that this source may give when it is
    /// asked for the variable `key`. A source that says nothing of itself
    /// may give any answer; one that is written down gives what it holds.
    open spec fn answers(&self, key: Seq<char>, value: Option<Seq<char>>) -> bool {
        true
    }

    /// The value of the variable `key`, if it is set.
    fn get(&self, key: &str) -> (value: Option<String>)
        ensures
            self.answers(key@, value.deep_view()),
    ;
}

/// The value that the list `vars` of names and values gives the variable
/// `key`: that of the last entry with this name.
pub open spec fn lookup(vars: Seq<(String, String)>, key: Seq<char>) -> Option<Seq<char>>
    decreases vars.len(),
{
    if vars.len() == 0 {
        None
    } else if vars.last().0@ == key {
        Some(vars.last().1@)
    } else {
        lookup(vars.drop_last(), key)
    }
}

/// An environment that is written down: a list of names and values.
#[derive(Clone, Debug, PartialEq, Eq)]
pub struct FixedEnv {
    pub vars: Vec<(String, String)>,
}

impl FixedEnv {
    /// The environment in which no variable is set.
    pub fn new() -> (env: FixedEnv)
        ensures
            env.vars@.len() == 0,
    {
        FixedEnv { vars: Vec::new() }
    }

    /// The value of the variable `key`, if it is set.
    pub open spec fn var(&self, key: Seq<char>) -> Option<Seq<char>> {
        lookup(self.vars@, key)
    }

    /// Sets the variable `key` to `value`.
    pub fn set(&mut self, key: &str, value: &str)
        ensures
            final(self).var(key@) == Some(value@),
            forall|other: Seq<char>| other != key@ ==> final(self).var(other) == old(self).var(other),
    {
        let ghost before = self.vars@;
        self.vars.push((key.to_owned(), value.to_owned()));
        assert(self.vars@.drop_last() =~= before);
    }
}

impl EnvProvider for FixedEnv {
    open spec fn answers(&self, key: Seq<char>, value: Option<Seq<char>>) -> bool {
        value == self.var(key)
    }

    fn get(&self, key: &str) -> (value: Option<String>)
    {
        let mut i: usize = self.vars.len();
        assert(self.vars@.take(i as int) =~= self.vars@);
        while i > 0
            invariant
                i <= self.vars.len(),
                lookup(self.vars@, key@) == lookup(self.vars@.take(i as int), key@),
            decreases i,
        {
            assert(self.vars@.take(i as int).drop_last() =~= self.vars@.take(i - 1));
            if str_is(self.vars[i - 1].0.as_str(), key) {
                return Some(self.vars[i - 1].1.clone());
            }
            i = i - 1;
        }
        None
    }
}

/// Why a configuration could not be had.
#[derive(Clone, Debug, PartialEq, Eq)]
pub enum ConfigError {
    /// The file could not be read.
    Io(IoFailure),
    /// The file is no TOML; the text says why.
    TomlParsing(String),
    /// The file is no JSON; the text says why.
    JsonParsing(String),
    /// The configuration is inconsistent.
    Validation(String),
    /// An environment variable holds what it may not.
    Environment(String),
    /// The file is of no known format; the text is its extension.
    UnsupportedFormat(String),
}

impl ConfigError {
    /// The text the error is reported with.
    pub open spec fn display(&self) -> Seq<char> {
        match self {
            ConfigError::Io(e) => "IO error: "@ + e.message@,
            ConfigError::TomlParsing(m) => "TOML parsing error: "@ + m@,
            ConfigError::JsonParsing(m) => "JSON parsing error: "@ + m@,
            ConfigError::Validation(m) => "Configuration validation error: "@ + m@,
            ConfigError::Environment(m) => "Environment variable error: "@ + m@,
            ConfigError::UnsupportedFormat(m) => "Unsupported configuration file format: "@ + m@,
        }
    }

    /// The text the error is reported with.
    pub fn to_string(&self) -> (r: String)
        ensures
            r@ == self.display(),
    {
        match self {
            ConfigError::Io(e) => concat2("IO error: ", e.message.as_str()),
            ConfigError::TomlParsing(m) => concat2("TOML parsing error: ", m.as_str()),
            ConfigError::JsonParsing(m) => concat2("JSON parsing error: ", m.as_str()),
            ConfigError::Validation(m) => concat2("Configuration validation error: ", m.as_str()),
            ConfigError::Environment(m) => concat2("Environment variable error: ", m.as_str()),
            ConfigError::UnsupportedFormat(m) => concat2(
                "Unsupported configuration file format: ",
                m.as_str(),
            ),
        }
    }
}

/// How the validations are run.
#[derive(Clone, Copy, Debug, PartialEq, Eq, Structural)]
pub struct ValidationConfig {
    /// How many validations run at the same time.
    pub threads: Option<usize>,
    pub fail_fast: bool,
    pub show_progress: bool,
}

/// How the cache is set up.
#[derive(Clone, Debug, PartialEq, Eq)]
pub struct CacheConfig {
    pub directory: String,
    pub ttl_hours: u64,
    pub max_size_mb: u64,
    pub max_memory_entries: u64,
    pub memory_ttl_seconds: u64,
}

/// How downloads are made.
#[derive(Clone, Copy, Debug, PartialEq, Eq, Structural)]
pub struct NetworkConfig {
    pub timeout_seconds: u64,
    pub retry_attempts: u32,
    pub retry_delay_ms: u64,
}

/// How the results are written, as a configuration names it.
#[derive(Clone, Copy, Debug, PartialEq, Eq, Structural)]
pub enum OutputFormatConfig {
    Human,
    Json,
    Summary,
}

/// What is written.
#[derive(Clone, Copy, Debug, PartialEq, Eq, Structural)]
pub struct OutputConfig {
    pub format: OutputFormatConfig,
    pub verbose: bool,
    pub quiet: bool,
}

/// Which files are looked for.
#[derive(Clone, Debug, PartialEq, Eq)]
pub struct FileConfig {
    pub extensions: Vec<String>,
    pub include_patterns: Vec<String>,
    pub exclude_patterns: Vec<String>,
}

/// The configuration of a run.
#[derive(Clone, Debug, PartialEq, Eq)]
pub struct Config {
    pub validation: ValidationConfig,
    pub cache: CacheConfig,
    pub network: NetworkConfig,
    pub output: OutputConfig,
    pub files: FileConfig,
}

impl OutputConfig {
    /// How much is to be said: little where the output is quiet, much
    /// where it is verbose and not quiet.
    pub fn verbosity(&self) -> (v: VerbosityLevel)
        ensures
            v == if self.quiet {
                VerbosityLevel::Quiet
            } else if self.verbose {
                VerbosityLevel::Verbose
            } else {
                VerbosityLevel::Normal
            },
    {
        if self.quiet {
            VerbosityLevel::Quiet
        } else if self.verbose {
            VerbosityLevel::Verbose
        } else {
            VerbosityLevel::Normal
        }
    }
}

impl Config {
    /// How downloads are made under this configuration: its timeout, its
    /// retries and its first delay; a delay of at most thirty seconds.
    pub fn http_client_config(&self) -> (c: HttpClientConfig)
        ensures
            c.timeout_seconds == self.network.timeout_seconds,
            c.retry_attempts == self.network.retry_attempts,
            c.retry_delay_ms == self.network.retry_delay_ms,
            c.max_retry_delay_ms == 30000,
            c.user_agent@ == "validate-xml/0.2.0"@,
    {
        let mut c = HttpClientConfig::default();
        c.timeout_seconds = self.network.timeout_seconds;
        c.retry_attempts = self.network.retry_attempts;
        c.retry_delay_ms = self.network.retry_delay_ms;
        c
    }

    /// How a run is bounded under this configuration: as many validations
    /// at a time as `get_thread_count` says, and at least one; the
    /// network's timeout for each file; metrics collected.
    pub fn validation_settings(&self, available_parallelism: Option<usize>) -> (c:
        crate::validator::ValidationConfig)
        ensures
            c.max_concurrent_validations >= 1,
            c.max_concurrent_validations == match (self.validation.threads, available_parallelism) {
                (Some(t), _) => if t == 0 {
                    1
                } else {
                    t
                },
                (None, Some(a)) => if a == 0 {
                    1
                } else {
                    a
                },
                (None, None) => 4,
            },
            c.validation_timeout@ == self.network.timeout_seconds * NANOS_PER_SEC,
            c.fail_fast == self.validation.fail_fast,
            c.show_progress == self.validation.show_progress,
            c.collect_metrics,
    {
        let threads = ConfigManager::get_thread_count(self, available_parallelism);
        crate::validator::ValidationConfig {
            max_concurrent_validations: if threads == 0 {
                1
            } else {
                threads
            },
            validation_timeout: Duration::from_secs(self.network.timeout_seconds),
            fail_fast: self.validation.fail_fast,
            show_progress: self.validation.show_progress,
            collect_metrics: true,
        }
    }
}

/// The format that the command line names, as a configuration names it.
pub open spec fn format_config(format: OutputFormat) -> OutputFormatConfig {
    match format {
        OutputFormat::Human => OutputFormatConfig::Human,
        OutputFormat::Json => OutputFormatConfig::Json,
        OutputFormat::Summary => OutputFormatConfig::Summary,
    }
}

impl From<OutputFormat> for OutputFormatConfig {
    fn from(format: OutputFormat) -> (r: OutputFormatConfig)
        ensures
            r == format_config(format),
    {
        match format {
            OutputFormat::Human => OutputFormatConfig::Human,
            OutputFormat::Json => OutputFormatConfig::Json,
            OutputFormat::Summary => OutputFormatConfig::Summary,
        }
    }
}

impl FromSpecImpl<OutputFormat> for OutputFormatConfig {
    open spec fn obeys_from_spec() -> bool {
        true
    }

    open spec fn from_spec(format: OutputFormat) -> OutputFormatConfig {
        format_config(format)
    }
}

impl From<OutputFormatConfig> for OutputFormat {
    fn from(format: OutputFormatConfig) -> (r: OutputFormat)
        ensures
            format_config(r) == format,
    {
        match format {
            OutputFormatConfig::Human => OutputFormat::Human,
            OutputFormatConfig::Json => OutputFormat::Json,
            OutputFormatConfig::Summary => OutputFormat::Summary,
        }
    }
}

impl FromSpecImpl<OutputFormatConfig> for OutputFormat {
    open spec fn obeys_from_spec() -> bool {
        true
    }

    open spec fn from_spec(format: OutputFormatConfig) -> OutputFormat {
        match format {
            OutputFormatConfig::Human => OutputFormat::Human,
            OutputFormatConfig::Json => OutputFormat::Json,
            OutputFormatConfig::Summary => OutputFormat::Summary,
        }
    }
}

impl Default for ValidationConfig {
    fn default() -> (c: ValidationConfig)
        ensures
            c == (ValidationConfig { threads: None, fail_fast: false, show_progress: false }),
    {
        ValidationConfig { threads: None, fail_fast: false, show_progress: false }
    }
}

impl CacheConfig {
    /// The cache where nothing is said of it: below the user's cache
    /// directory, or below the directory `temp_dir` for temporary files
    /// where the environment names none; good for a day, of a hundred
    /// megabytes, with a thousand entries in memory for an hour.
    pub fn default_in(temp_dir: &str) -> (c: CacheConfig)
        ensures
            exists|user: Option<Seq<char>>|
                c.directory@ == #[trigger] cache_dir_below(user, temp_dir@),
            c.ttl_hours == 24,
            c.max_size_mb == 100,
            c.max_memory_entries == 1000,
            c.memory_ttl_seconds == 3600,
    {
        CacheConfig {
            directory: default_cache_dir(temp_dir),
            ttl_hours: 24,
            max_size_mb: 100,
            max_memory_entries: 1000,
            memory_ttl_seconds: 3600,
        }
    }
}

impl Default for NetworkConfig {
    fn default() -> (c: NetworkConfig)
        ensures
            c == (NetworkConfig { timeout_seconds: 30, retry_attempts: 3, retry_delay_ms: 1000 }),
    {
        NetworkConfig { timeout_seconds: 30, retry_attempts: 3, retry_delay_ms: 1000 }
    }
}

impl Default for OutputConfig {
    fn default() -> (c: OutputConfig)
        ensures
            c == (OutputConfig { format: OutputFormatConfig::Human, verbose: false, quiet: false }),
    {
        OutputConfig { format: OutputFormatConfig::Human, verbose: false, quiet: false }
    }
}

impl Default for FileConfig {
    fn default() -> (c: FileConfig)
        ensures
            c.extensions.deep_view() == seq!["xml"@],
            c.include_patterns@.len() == 0,
            c.exclude_patterns@.len() == 0,
    {
        let mut extensions: Vec<String> = Vec::new();
        extensions.push("xml".to_owned());
        assert(extensions.deep_view() =~= seq!["xml"@]);
        FileConfig { extensions, include_patterns: Vec::new(), exclude_patterns: Vec::new() }
    }
}

/// Whether `c` is a configuration as it is where nothing is said, on a
/// machine whose directory for temporary files is `temp_dir`: the cache lies
/// in `validate-xml` below the user's cache directory, or below `temp_dir`
/// where there is none, and everything else has its default.
pub open spec fn is_default(c: Config, temp_dir: Seq<char>) -> bool {
    &&& c.validation == (ValidationConfig { threads: None, fail_fast: false, show_progress: false })
    &&& exists|user: Option<Seq<char>>|
        c.cache.directory@ == #[trigger] cache_dir_below(user, temp_dir)
    &&& c.cache.ttl_hours == 24
    &&& c.cache.max_size_mb == 100
    &&& c.cache.max_memory_entries == 1000
    &&& c.cache.memory_ttl_seconds == 3600
    &&& c.network == (NetworkConfig { timeout_seconds: 30, retry_attempts: 3, retry_delay_ms: 1000 })
    &&& c.output == (OutputConfig { format: OutputFormatConfig::Human, verbose: false, quiet: false })
    &&& c.files.extensions.deep_view() == seq!["xml"@]
    &&& c.files.include_patterns@.len() == 0
    &&& c.files.exclude_patterns@.len() == 0
}

impl Config {
    /// The configuration where nothing is said, on a machine whose
    /// directory for temporary files is `temp_dir`. It has no defect.
    pub fn default_in(temp_dir: &str) -> (c: Config)
        ensures
            is_default(c, temp_dir@),
            config_defect(c) is None,
    {
        let c = Config {
            validation: ValidationConfig::default(),
            cache: CacheConfig::default_in(temp_dir),
            network: NetworkConfig::default(),
            output: OutputConfig::default(),
            files: FileConfig::default(),
        };
        proof {
            lemma_xml_is_an_extension();
            let list = c.files.extensions.deep_view();
            assert(list.skip(1) =~= Seq::<Seq<char>>::empty());
            assert(first_bad_extension(list.skip(1)) is None);
        }
        c
    }
}

/// `xml` holds no slash, no backslash and no dot.
proof fn lemma_xml_is_an_extension()
    ensures
        !crate::cli::bad_extension("xml"@),
{
    reveal_strlit("xml");
    let s = "xml"@;
    assert(s.len() == 3);
    assert(s[0] == 'x' && s[1] == 'm' && s[2] == 'l');
    assert forall|c: char| s.contains(c) implies c == 'x' || c == 'm' || c == 'l' by {
        let i = choose|i: int| 0 <= i < s.len() && s[i] == c;
        assert(i == 0 || i == 1 || i == 2);
    }
}

/// What is wrong with a configuration, if anything. The first defect in
/// this order counts: the threads, the cache's time to live, its size, the
/// timeout, the retries, the verbosity, the extensions.
pub open spec fn config_defect(c: Config) -> Option<Seq<char>> {
    if threads_defect(c.validation.threads) is Some {
        threads_defect(c.validation.threads)
    } else if c.cache.ttl_hours == 0 {
        Some("Cache TTL must be greater than 0"@)
    } else if c.cache.max_size_mb == 0 {
        Some("Cache max size must be greater than 0"@)
    } else if c.network.timeout_seconds == 0 {
        Some("Timeout must be greater than 0"@)
    } else if c.network.retry_attempts > 10 {
        Some("Retry attempts cannot exceed 10"@)
    } else if c.output.verbose && c.output.quiet {
        Some("Cannot enable both verbose and quiet modes"@)
    } else if c.files.extensions@.len() == 0 {
        Some("At least one file extension must be specified"@)
    } else if first_bad_extension(c.files.extensions.deep_view()) is Some {
        Some("Invalid file extension: "@ + first_bad_extension(c.files.extensions.deep_view())->0)
    } else {
        None
    }
}

/// The values of the environment variables that a configuration heeds.
#[derive(Clone, Debug, PartialEq, Eq)]
pub struct EnvValues {
    pub threads: Option<String>,
    pub fail_fast: Option<String>,
    pub cache_dir: Option<String>,
    pub cache_ttl: Option<String>,
    pub max_cache_size: Option<String>,
    pub timeout: Option<String>,
    pub retry_attempts: Option<String>,
    pub verbose: Option<String>,
    pub quiet: Option<String>,
    pub format: Option<String>,
    pub extensions: Option<String>,
}

/// Whether `values` are values that `env` may give the variables that a
/// configuration heeds, each asked for under its name.
pub open spec fn given_by<E: EnvProvider>(env: &E, values: EnvValues) -> bool {
    &&& env.answers("VALIDATE_XML_THREADS"@, values.threads.deep_view())
    &&& env.answers("VALIDATE_XML_FAIL_FAST"@, values.fail_fast.deep_view())
    &&& env.answers("VALIDATE_XML_CACHE_DIR"@, values.cache_dir.deep_view())
    &&& env.answers("VALIDATE_XML_CACHE_TTL"@, values.cache_ttl.deep_view())
    &&& env.answers("VALIDATE_XML_MAX_CACHE_SIZE"@, values.max_cache_size.deep_view())
    &&& env.answers("VALIDATE_XML_TIMEOUT"@, values.timeout.deep_view())
    &&& env.answers("VALIDATE_XML_RETRY_ATTEMPTS"@, values.retry_attempts.deep_view())
    &&& env.answers("VALIDATE_XML_VERBOSE"@, values.verbose.deep_view())
    &&& env.answers("VALIDATE_XML_QUIET"@, values.quiet.deep_view())
    &&& env.answers("VALIDATE_XML_FORMAT"@, values.format.deep_view())
    &&& env.answers("VALIDATE_XML_EXTENSIONS"@, values.extensions.deep_view())
}

/// The format that a text names, whatever its case.
pub open spec fn parse_format(s: Seq<char>) -> Option<OutputFormatConfig> {
    if lowercase(s) == "human"@ {
        Some(OutputFormatConfig::Human)
    } else if lowercase(s) == "json"@ {
        Some(OutputFormatConfig::Json)
    } else if lowercase(s) == "summary"@ {
        Some(OutputFormatConfig::Summary)
    } else {
        None
    }
}

/// The message for a variable that holds what it may not.
pub open spec fn bad_value(name: Seq<char>, value: Seq<char>) -> Seq<char> {
    "Invalid "@ + name + " value: "@ + value
}

/// Whether the variable's value, if it is set, spells a number of at most
/// `max`.
pub open spec fn number_ok(value: Option<String>, max: nat) -> bool {
    value matches Some(v) ==> parse_unsigned_up_to(v@, max) is Some
}

/// Whether the variable's value, if it is set, spells a truth value.
pub open spec fn truth_ok(value: Option<String>) -> bool {
    value matches Some(v) ==> parse_truth(v@) is Some
}

/// What is wrong with the values that bear on the validations, if anything.
pub open spec fn validation_env_defect(v: EnvValues) -> Option<Seq<char>> {
    if !number_ok(v.threads, usize::MAX as nat) {
        Some(bad_value("VALIDATE_XML_THREADS"@, v.threads->0@))
    } else if !truth_ok(v.fail_fast) {
        Some(bad_value("VALIDATE_XML_FAIL_FAST"@, v.fail_fast->0@))
    } else {
        None
    }
}

/// What is wrong with the values that bear on the cache, if anything.
pub open spec fn cache_env_defect(v: EnvValues) -> Option<Seq<char>> {
    if !number_ok(v.cache_ttl, u64::MAX as nat) {
        Some(bad_value("VALIDATE_XML_CACHE_TTL"@, v.cache_ttl->0@))
    } else if !number_ok(v.max_cache_size, u64::MAX as nat) {
        Some(bad_value("VALIDATE_XML_MAX_CACHE_SIZE"@, v.max_cache_size->0@))
    } else {
        None
    }
}

/// What is wrong with the values that bear on the network, if anything.
pub open spec fn network_env_defect(v: EnvValues) -> Option<Seq<char>> {
    if !number_ok(v.timeout, u64::MAX as nat) {
        Some(bad_value("VALIDATE_XML_TIMEOUT"@, v.timeout->0@))
    } else if !number_ok(v.retry_attempts, u32::MAX as nat) {
        Some(bad_value("VALIDATE_XML_RETRY_ATTEMPTS"@, v.retry_attempts->0@))
    } else {
        None
    }
}

/// What is wrong with the values that bear on the output, if anything.
pub open spec fn output_env_defect(v: EnvValues) -> Option<Seq<char>> {
    if !truth_ok(v.verbose) {
        Some(bad_value("VALIDATE_XML_VERBOSE"@, v.verbose->0@))
    } else if !truth_ok(v.quiet) {
        Some(bad_value("VALIDATE_XML_QUIET"@, v.quiet->0@))
    } else if v.format is Some && parse_format(v.format->0@) is None {
        Some(bad_value("VALIDATE_XML_FORMAT"@, v.format->0@))
    } else {
        None
    }
}

/// What is wrong with the values of the environment, if anything. The first
/// defect in this order counts: the threads, fail-fast, the cache's time to
/// live, its size, the timeout, the retries, verbose, quiet, the format.
pub open spec fn env_defect(v: EnvValues) -> Option<Seq<char>> {
    if validation_env_defect(v) is Some {
        validation_env_defect(v)
    } else if cache_env_defect(v) is Some {
        cache_env_defect(v)
    } else if network_env_defect(v) is Some {
        network_env_defect(v)
    } else {
        output_env_defect(v)
    }
}

/// The number that the variable's value spells, or `otherwise` where the
/// variable is not set.
pub open spec fn number_or(value: Option<String>, max: nat, otherwise: nat) -> nat {
    match value {
        Some(v) => parse_unsigned_up_to(v@, max)->0,
        None => otherwise,
    }
}

/// The truth value that the variable's value spells, or `otherwise` where
/// the variable is not set.
pub open spec fn truth_or(value: Option<String>, otherwise: bool) -> bool {
    match value {
        Some(v) => parse_truth(v@)->0,
        None => otherwise,
    }
}

/// The validations `before`, with what the environment overrides.
pub open spec fn validation_overridden(before: ValidationConfig, v: EnvValues) -> ValidationConfig {
    ValidationConfig {
        threads: match v.threads {
            Some(t) => Some(parse_unsigned_up_to(t@, usize::MAX as nat)->0 as usize),
            None => before.threads,
        },
        fail_fast: truth_or(v.fail_fast, before.fail_fast),
        show_progress: before.show_progress,
    }
}

/// Whether `after` is the cache `before`, with what the environment
/// overrides.
pub open spec fn cache_overridden(before: CacheConfig, v: EnvValues, after: CacheConfig) -> bool {
    &&& after.directory@ == match v.cache_dir {
        Some(d) => d@,
        None => before.directory@,
    }
    &&& after.ttl_hours == number_or(v.cache_ttl, u64::MAX as nat, before.ttl_hours as nat)
    &&& after.max_size_mb == number_or(v.max_cache_size, u64::MAX as nat, before.max_size_mb as nat)
    &&& after.max_memory_entries == before.max_memory_entries
    &&& after.memory_ttl_seconds == before.memory_ttl_seconds
}

/// The network `before`, with what the environment overrides.
pub open spec fn network_overridden(before: NetworkConfig, v: EnvValues) -> NetworkConfig {
    NetworkConfig {
        timeout_seconds: number_or(v.timeout, u64::MAX as nat, before.timeout_seconds as nat) as u64,
        retry_attempts: number_or(
            v.retry_attempts,
            u32::MAX as nat,
            before.retry_attempts as nat,
        ) as u32,
        retry_delay_ms: before.retry_delay_ms,
    }
}

/// The output `before`, with what the environment overrides.
pub open spec fn output_overridden(before: OutputConfig, v: EnvValues) -> OutputConfig {
    OutputConfig {
        format: match v.format {
            Some(f) => parse_format(f@)->0,
            None => before.format,
        },
        verbose: truth_or(v.verbose, before.verbose),
        quiet: truth_or(v.quiet, before.quiet),
    }
}

/// Whether `after` is `before` with the values `v` of the environment in
/// place of what they override. Nothing else changes.
pub open spec fn overridden(before: Config, v: EnvValues, after: Config) -> bool {
    &&& after.validation == validation_overridden(before.validation, v)
    &&& cache_overridden(before.cache, v, after.cache)
    &&& after.network == network_overridden(before.network, v)
    &&& after.output == output_overridden(before.output, v)
    &&& after.files.extensions.deep_view() == match v.extensions {
        Some(e) => comma_list(e@),
        None => before.files.extensions.deep_view(),
    }
    &&& after.files.include_patterns == before.files.include_patterns
    &&& after.files.exclude_patterns == before.files.exclude_patterns
}

/// Whether `r` is what comes of laying the values `v` of the environment
/// over `before`: the configuration with the overrides where every value
/// spells what its variable holds, and else the failure `Environment` with
/// the first defect.
pub open spec fn override_outcome(before: Config, v: EnvValues, r: Result<Config, ConfigError>) -> bool {
    match r {
        Ok(after) => env_defect(v) is None && overridden(before, v, after),
        Err(e) => e matches ConfigError::Environment(m) && env_defect(v) == Some(m@),
    }
}

/// The error for the variable `name` that holds `value`.
fn env_error(name: &str, value: &str) -> (e: ConfigError)
    ensures
        e matches ConfigError::Environment(m) && m@ == bad_value(name@, value@),
{
    ConfigError::Environment(concat4("Invalid ", name, " value: ", value))
}

/// Reads the number that the variable `name` holds, if it is set.
fn env_number(value: &Option<String>, name: &str, max: u64) -> (r: Result<Option<u64>, ConfigError>)
    ensures
        match r {
            Ok(n) => number_ok(*value, max as nat) && (match n {
                Some(n) => value is Some && n == number_or(*value, max as nat, 0),
                None => value is None,
            }),
            Err(e) => !number_ok(*value, max as nat) && (e matches ConfigError::Environment(m)
                && m@ == bad_value(name@, value->0@)),
        },
{
    match value {
        Some(v) => match read_unsigned(&chars_of(v.as_str()), max) {
            Some(n) => Ok(Some(n)),
            None => Err(env_error(name, v.as_str())),
        },
        None => Ok(None),
    }
}

/// Reads the truth value that the variable `name` holds, if it is set.
fn env_truth(value: &Option<String>, name: &str) -> (r: Result<Option<bool>, ConfigError>)
    ensures
        match r {
            Ok(b) => truth_ok(*value) && (match b {
                Some(b) => value is Some && b == truth_or(*value, false),
                None => value is None,
            }),
            Err(e) => !truth_ok(*value) && (e matches ConfigError::Environment(m) && m@
                == bad_value(name@, value->0@)),
        },
{
    match value {
        Some(v) => match read_truth(&chars_of(v.as_str())) {
            Some(b) => Ok(Some(b)),
            None => Err(env_error(name, v.as_str())),
        },
        None => Ok(None),
    }
}

/// Reads the format that a text names.
fn read_format(s: &str) -> (r: Option<OutputFormatConfig>)
    ensures
        r == parse_format(s@),
{
    let lower = to_lowercase(s);
    if str_is(lower.as_str(), "human") {
        Some(OutputFormatConfig::Human)
    } else if str_is(lower.as_str(), "json") {
        Some(OutputFormatConfig::Json)
    } else if str_is(lower.as_str(), "summary") {
        Some(OutputFormatConfig::Summary)
    } else {
        None
    }
}

/// The places where a configuration file is looked for.
pub open spec fn candidates(config_dir: Option<Seq<char>>) -> Seq<Seq<char>> {
    seq!["validate-xml.toml"@, "validate-xml.json"@, ".validate-xml.toml"@, ".validate-xml.json"@]
        + match config_dir {
        Some(d) => {
            let base = join(d, "validate-xml"@);
            seq![
                join(base, "validate-xml.toml"@),
                join(base, "validate-xml.json"@),
                join(base, ".validate-xml.toml"@),
                join(base, ".validate-xml.json"@),
            ]
        },
        None => Seq::<Seq<char>>::empty(),
    }
}

/// Whether `r` is `config` with the arguments `cli` of the command line
/// laid over it.
pub open spec fn cli_merged(config: Config, cli: Cli, r: Config) -> bool {
    &&& r.validation.threads == if cli.threads is Some {
        cli.threads
    } else {
        config.validation.threads
    }
    &&& r.validation.fail_fast == cli.fail_fast
    &&& r.validation.show_progress == cli.progress
    &&& r.cache.directory@ == match cli.cache_dir {
        Some(d) => d@,
        None => config.cache.directory@,
    }
    &&& r.cache.ttl_hours == cli.cache_ttl
    &&& r.cache.max_size_mb == cli.max_cache_size
    &&& r.cache.max_memory_entries == config.cache.max_memory_entries
    &&& r.cache.memory_ttl_seconds == config.cache.memory_ttl_seconds
    &&& r.network.timeout_seconds == cli.timeout
    &&& r.network.retry_attempts == cli.retry_attempts
    &&& r.network.retry_delay_ms == config.network.retry_delay_ms
    &&& r.output.format == format_config(cli.output_format)
    &&& r.output.verbose == cli.verbose
    &&& r.output.quiet == cli.quiet
    &&& r.files.extensions.deep_view() == comma_list(cli.extensions@)
    &&& r.files.include_patterns.deep_view() == if cli.include_patterns@.len() > 0 {
        cli.include_patterns.deep_view()
    } else {
        config.files.include_patterns.deep_view()
    }
    &&& r.files.exclude_patterns.deep_view() == if cli.exclude_patterns@.len() > 0 {
        cli.exclude_patterns.deep_view()
    } else {
        config.files.exclude_patterns.deep_view()
    }
}

/// Whether `r` is `base` with `override_config` laid over it.
pub open spec fn merged(base: Config, override_config: Config, r: Config) -> bool {
    &&& r.validation.threads == if override_config.validation.threads is Some {
        override_config.validation.threads
    } else {
        base.validation.threads
    }
    &&& r.validation.fail_fast == override_config.validation.fail_fast
    &&& r.validation.show_progress == override_config.validation.show_progress
    &&& r.cache.directory == override_config.cache.directory
    &&& r.cache.ttl_hours == override_config.cache.ttl_hours
    &&& r.cache.max_size_mb == override_config.cache.max_size_mb
    &&& r.cache.max_memory_entries == base.cache.max_memory_entries
    &&& r.cache.memory_ttl_seconds == base.cache.memory_ttl_seconds
    &&& r.network == override_config.network
    &&& r.output == override_config.output
    &&& r.files.extensions == if override_config.files.extensions@.len() > 0 {
        override_config.files.extensions
    } else {
        base.files.extensions
    }
    &&& r.files.include_patterns == if override_config.files.include_patterns@.len() > 0 {
        override_config.files.include_patterns
    } else {
        base.files.include_patterns
    }
    &&& r.files.exclude_patterns == if override_config.files.exclude_patterns@.len() > 0 {
        override_config.files.exclude_patterns
    } else {
        base.files.exclude_patterns
    }
}

/// Whether `r` is what the check of the configuration `c` comes to: `c`
/// itself where it has no defect, else the failure `Validation` with its
/// first defect.
pub open spec fn checked(c: Config, r: Result<Config, ConfigError>) -> bool {
    match r {
        Ok(passed) => passed == c && config_defect(c) is None,
        Err(e) => e matches ConfigError::Validation(m) && config_defect(c) == Some(m@),
    }
}

/// Whether `r` is what comes of putting a configuration together from the
/// defaults `start` of a machine whose directory for temporary files is
/// `temp_dir`, the configuration `file` of a file if there is one,
/// the values `values` of the environment and the arguments `cli`: `laid`
/// is the defaults with the file laid over, `env_result` what the
/// environment makes of that, and `last` what the command line makes of
/// that; a failure of the environment ends the putting together.
pub open spec fn assembled(
    file: Option<Config>,
    cli: Cli,
    temp_dir: Seq<char>,
    start: Config,
    laid: Config,
    values: EnvValues,
    env_result: Result<Config, ConfigError>,
    last: Config,
    r: Result<Config, ConfigError>,
) -> bool {
    &&& is_default(start, temp_dir)
    &&& match file {
        Some(f) => merged(start, f, laid),
        None => laid == start,
    }
    &&& override_outcome(laid, values, env_result)
    &&& match env_result {
        Ok(after) => cli_merged(after, cli, last) && checked(last, r),
        Err(e) => r == Err::<Config, ConfigError>(e),
    }
}

/// The format of a configuration file.
#[derive(Clone, Copy, Debug, PartialEq, Eq, Structural)]
pub enum ConfigFormat {
    Toml,
    Json,
    /// The file has no extension: it is read as TOML, and as JSON if it is
    /// no TOML.
    TomlThenJson,
}

/// Loads and merges configurations.
pub struct ConfigManager {}

impl ConfigManager {
    /// The format in which the file `path` is read, by its extension; an
    /// extension other than `toml` and `json` is refused as
    /// `UnsupportedFormat`.
    pub fn config_format(path: &str) -> (r: Result<ConfigFormat, ConfigError>)
        ensures
            match extension(path@) {
                Some(e) => if e == "toml"@ {
                    r == Ok::<ConfigFormat, ConfigError>(ConfigFormat::Toml)
                } else if e == "json"@ {
                    r == Ok::<ConfigFormat, ConfigError>(ConfigFormat::Json)
                } else {
                    r matches Err(ConfigError::UnsupportedFormat(x)) && x@ == e
                },
                None => r == Ok::<ConfigFormat, ConfigError>(ConfigFormat::TomlThenJson),
            },
    {
        match extension_of(&chars_of(path)) {
            Some(e) => {
                if same_text(&e, &chars_of("toml")) {
                    Ok(ConfigFormat::Toml)
                } else if same_text(&e, &chars_of("json")) {
                    Ok(ConfigFormat::Json)
                } else {
                    Err(ConfigError::UnsupportedFormat(string_of(&e)))
                }
            },
            None => Ok(ConfigFormat::TomlThenJson),
        }
    }

    /// The places where a configuration file is looked for, in order: the
    /// four names of such a file in the working directory, then the same
    /// names in `validate-xml` below the user's configuration directory,
    /// if there is one.
    pub fn config_candidates(config_dir: Option<&str>) -> (r: Vec<String>)
        ensures
            r.deep_view() == candidates(
                match config_dir {
                    Some(d) => Some(d@),
                    None => None,
                },
            ),
    {
        let mut r: Vec<String> = Vec::new();
        r.push("validate-xml.toml".to_owned());
        r.push("validate-xml.json".to_owned());
        r.push(".validate-xml.toml".to_owned());
        r.push(".validate-xml.json".to_owned());
        match config_dir {
            Some(d) => {
                let base = crate::paths::joined(&chars_of(d), &chars_of("validate-xml"));
                r.push(string_of(&crate::paths::joined(&base, &chars_of("validate-xml.toml"))));
                r.push(string_of(&crate::paths::joined(&base, &chars_of("validate-xml.json"))));
                r.push(string_of(&crate::paths::joined(&base, &chars_of(".validate-xml.toml"))));
                r.push(string_of(&crate::paths::joined(&base, &chars_of(".validate-xml.json"))));
            },
            None => {},
        }
        assert(r.deep_view() =~= candidates(
            match config_dir {
                Some(d) => Some(d@),
                None => None,
            },
        ));
        r
    }

    /// Reads the values that `env` gives the variables that a
    /// configuration heeds: each variable is asked for once, under its
    /// name.
    pub fn read_environment<E: EnvProvider>(env: &E) -> (v: EnvValues)
        ensures
            given_by(env, v),
    {
        EnvValues {
            threads: env.get("VALIDATE_XML_THREADS"),
            fail_fast: env.get("VALIDATE_XML_FAIL_FAST"),
            cache_dir: env.get("VALIDATE_XML_CACHE_DIR"),
            cache_ttl: env.get("VALIDATE_XML_CACHE_TTL"),
            max_cache_size: env.get("VALIDATE_XML_MAX_CACHE_SIZE"),
            timeout: env.get("VALIDATE_XML_TIMEOUT"),
            retry_attempts: env.get("VALIDATE_XML_RETRY_ATTEMPTS"),
            verbose: env.get("VALIDATE_XML_VERBOSE"),
            quiet: env.get("VALIDATE_XML_QUIET"),
            format: env.get("VALIDATE_XML_FORMAT"),
            extensions: env.get("VALIDATE_XML_EXTENSIONS"),
        }
    }

    /// The configuration `config` with the values `values` of the
    /// environment in place of what they override. A value that does not
    /// spell what its variable holds is the failure `Environment`, which
    /// names the variable and the value.
    pub fn apply_overrides(config: Config, values: EnvValues) -> (r: Result<Config, ConfigError>)
        ensures
            override_outcome(config, values, r),
    {
        let validation = match override_validation(config.validation, &values) {
            Ok(v) => v,
            Err(e) => {
                return Err(e);
            },
        };
        let cache = match override_cache(config.cache, &values) {
            Ok(c) => c,
            Err(e) => {
                return Err(e);
            },
        };
        let network = match override_network(config.network, &values) {
            Ok(n) => n,
            Err(e) => {
                return Err(e);
            },
        };
        let output = match override_output(config.output, &values) {
            Ok(o) => o,
            Err(e) => {
                return Err(e);
            },
        };
        let mut files = config.files;
        match &values.extensions {
            Some(e) => {
                files.extensions = parse_comma_list(e.as_str());
            },
            None => {},
        }
        Ok(Config { validation, cache, network, output, files })
    }

    /// The configuration `config` with what `env` sets in place of what it
    /// overrides: the result is what `apply_overrides` makes of values that
    /// `env` gives the variables.
    pub fn apply_environment_overrides_with<E: EnvProvider>(env: &E, config: Config) -> (r: Result<
        Config,
        ConfigError,
    >)
        ensures
            exists|values: EnvValues|
                given_by(env, values) && #[trigger] override_outcome(config, values, r),
    {
        let values = Self::read_environment(env);
        let r = Self::apply_overrides(config, values);
        assert(given_by(env, values) && override_outcome(config, values, r));
        r
    }

    /// The configuration `config` with the arguments of the command line in
    /// place of what they override: the threads, the cache directory and
    /// the patterns where the arguments name any, and everything else that
    /// the arguments hold in any case.
    pub fn merge_with_cli(config: Config, cli: &Cli) -> (r: Config)
        ensures
            cli_merged(config, *cli, r),
    {
        let mut config = config;
        if cli.threads.is_some() {
            config.validation.threads = cli.threads;
        }
        config.validation.fail_fast = cli.fail_fast;
        config.validation.show_progress = cli.progress;
        match &cli.cache_dir {
            Some(d) => {
                config.cache.directory = d.clone();
            },
            None => {},
        }
        config.cache.ttl_hours = cli.cache_ttl;
        config.cache.max_size_mb = cli.max_cache_size;
        config.network.timeout_seconds = cli.timeout;
        config.network.retry_attempts = cli.retry_attempts;
        config.output.format = OutputFormatConfig::from(cli.output_format);
        config.output.verbose = cli.verbose;
        config.output.quiet = cli.quiet;
        config.files.extensions = cli.get_extensions();
        if cli.include_patterns.len() > 0 {
            config.files.include_patterns = copy_texts(&cli.include_patterns);
        }
        if cli.exclude_patterns.len() > 0 {
            config.files.exclude_patterns = copy_texts(&cli.exclude_patterns);
        }
        config
    }

    /// The configuration `base` with `override_config` laid over it: the
    /// threads, the extensions and the patterns of `override_config` count
    /// where it names any, the memory tier stays as `base` has it, and
    /// everything else is as `override_config` has it.
    pub fn merge_configs(base: Config, override_config: Config) -> (r: Config)
        ensures
            merged(base, override_config, r),
    {
        let mut base = base;
        if override_config.validation.threads.is_some() {
            base.validation.threads = override_config.validation.threads;
        }
        base.validation.fail_fast = override_config.validation.fail_fast;
        base.validation.show_progress = override_config.validation.show_progress;
        base.cache.directory = override_config.cache.directory;
        base.cache.ttl_hours = override_config.cache.ttl_hours;
        base.cache.max_size_mb = override_config.cache.max_size_mb;
        base.network = override_config.network;
        base.output = override_config.output;
        if override_config.files.extensions.len() > 0 {
            base.files.extensions = override_config.files.extensions;
        }
        if override_config.files.include_patterns.len() > 0 {
            base.files.include_patterns = override_config.files.include_patterns;
        }
        if override_config.files.exclude_patterns.len() > 0 {
            base.files.exclude_patterns = override_config.files.exclude_patterns;
        }
        base
    }

    /// Checks a configuration: it is refused as `Validation`, with its
    /// first defect, exactly when it has one.
    pub fn validate_config(config: &Config) -> (r: Result<(), ConfigError>)
        ensures
            match r {
                Ok(_) => config_defect(*config) is None,
                Err(e) => e matches ConfigError::Validation(m) && config_defect(*config) == Some(
                    m@,
                ),
            },
    {
        match check_threads(config.validation.threads) {
            Some(m) => {
                return Err(ConfigError::Validation(m));
            },
            None => {},
        }
        if config.cache.ttl_hours == 0 {
            return Err(ConfigError::Validation("Cache TTL must be greater than 0".to_owned()));
        }
        if config.cache.max_size_mb == 0 {
            return Err(ConfigError::Validation("Cache max size must be greater than 0".to_owned()));
        }
        if config.network.timeout_seconds == 0 {
            return Err(ConfigError::Validation("Timeout must be greater than 0".to_owned()));
        }
        if config.network.retry_attempts > 10 {
            return Err(ConfigError::Validation("Retry attempts cannot exceed 10".to_owned()));
        }
        if config.output.verbose && config.output.quiet {
            return Err(
                ConfigError::Validation("Cannot enable both verbose and quiet modes".to_owned()),
            );
        }
        if config.files.extensions.len() == 0 {
            return Err(
                ConfigError::Validation("At least one file extension must be specified".to_owned()),
            );
        }
        match find_bad_extension(&config.files.extensions) {
            Some(e) => {
                return Err(
                    ConfigError::Validation(concat2("Invalid file extension: ", e.as_str())),
                );
            },
            None => {},
        }
        Ok(())
    }

    /// Puts a configuration together: the defaults, then the configuration
    /// file if there is one, then the environment, then the command line;
    /// what comes later overrides. The result is checked. The defaults are
    /// those of a machine whose directory for temporary files is `temp_dir`.
    pub fn assemble<E: EnvProvider>(
        file_config: Option<Config>,
        env: &E,
        cli: &Cli,
        temp_dir: &str,
    ) -> (r: Result<Config, ConfigError>)
        ensures
            exists|
                start: Config,
                laid: Config,
                values: EnvValues,
                env_result: Result<Config, ConfigError>,
                last: Config,
            |
                given_by(env, values) && #[trigger] assembled(
                    file_config,
                    *cli,
                    temp_dir@,
                    start,
                    laid,
                    values,
                    env_result,
                    last,
                    r,
                ),
            r matches Ok(config) ==> config_defect(config) is None,
    {
        let start = Config::default_in(temp_dir);
        let ghost begun = start;
        let laid = match file_config {
            Some(from_file) => Self::merge_configs(start, from_file),
            None => start,
        };
        let ghost laid_over = laid;
        let env_result = Self::apply_environment_overrides_with(env, laid);
        let ghost values = choose|values: EnvValues|
            given_by(env, values) && #[trigger] override_outcome(laid_over, values, env_result);
        match env_result {
            Ok(after) => {
                let last = Self::merge_with_cli(after, cli);
                let r = match Self::validate_config(&last) {
                    Ok(_) => Ok(last),
                    Err(e) => Err(e),
                };
                assert(given_by(env, values) && assembled(
                    file_config,
                    *cli,
                    temp_dir@,
                    begun,
                    laid_over,
                    values,
                    env_result,
                    last,
                    r,
                ));
                r
            },
            Err(e) => {
                let r = Err(e);
                assert(given_by(env, values) && assembled(
                    file_config,
                    *cli,
                    temp_dir@,
                    begun,
                    laid_over,
                    values,
                    env_result,
                    begun,
                    r,
                ));
                r
            },
        }
    }

    /// The directory of the cache.
    pub fn get_cache_directory(config: &Config) -> (dir: String)
        ensures
            dir@ == config.cache.directory@,
    {
        config.cache.directory.clone()
    }

    /// How many validations run at the same time: as many as the
    /// configuration says, else as many as the machine runs in parallel,
    /// else four.
    pub fn get_thread_count(config: &Config, available_parallelism: Option<usize>) -> (n: usize)
        ensures
            n == match (config.validation.threads, available_parallelism) {
                (Some(t), _) => t,
                (None, Some(a)) => a,
                (None, None) => 4,
            },
    {
        match config.validation.threads {
            Some(t) => t,
            None => match available_parallelism {
                Some(a) => a,
                None => 4,
            },
        }
    }

    /// How long a request may take.
    pub fn get_timeout_duration(config: &Config) -> (d: Duration)
        ensures
            d@ == config.network.timeout_seconds * NANOS_PER_SEC,
    {
        Duration::from_secs(config.network.timeout_seconds)
    }

    /// How long a cached schema is good for.
    pub fn get_cache_ttl_duration(config: &Config) -> (d: Duration)
        ensures
            d@ == config.cache.ttl_hours * 3600 * NANOS_PER_SEC,
    {
        let secs: u128 = config.cache.ttl_hours as u128 * 3600;
        assert(secs * NANOS_PER_SEC <= u128::MAX) by (nonlinear_arith)
            requires
                secs <= 3600 * 0xffff_ffff_ffff_ffff,
                NANOS_PER_SEC == 1_000_000_000,
        ;
        assert(config.cache.ttl_hours * 3600 * NANOS_PER_SEC == secs * NANOS_PER_SEC)
            by (nonlinear_arith)
            requires
                secs == config.cache.ttl_hours * 3600,
        ;
        Duration::from_nanos(secs * NANOS_PER_SEC)
    }

    /// The delay before the first retry.
    pub fn get_retry_delay_duration(config: &Config) -> (d: Duration)
        ensures
            d@ == config.network.retry_delay_ms * NANOS_PER_MILLI,
    {
        Duration::from_millis(config.network.retry_delay_ms)
    }
}

/// The validations `before`, with what the environment overrides.
fn override_validation(before: ValidationConfig, values: &EnvValues) -> (r: Result<
    ValidationConfig,
    ConfigError,
>)
    ensures
        match r {
            Ok(after) => validation_env_defect(*values) is None && after == validation_overridden(
                before,
                *values,
            ),
            Err(e) => e matches ConfigError::Environment(m) && validation_env_defect(*values)
                == Some(m@),
        },
{
    let mut after = before;
    match env_number(&values.threads, "VALIDATE_XML_THREADS", usize::MAX as u64) {
        Ok(Some(n)) => {
            after.threads = Some(n as usize);
        },
        Ok(None) => {},
        Err(e) => {
            return Err(e);
        },
    }
    match env_truth(&values.fail_fast, "VALIDATE_XML_FAIL_FAST") {
        Ok(Some(b)) => {
            after.fail_fast = b;
        },
        Ok(None) => {},
        Err(e) => {
            return Err(e);
        },
    }
    Ok(after)
}

/// The cache `before`, with what the environment overrides.
fn override_cache(before: CacheConfig, values: &EnvValues) -> (r: Result<CacheConfig, ConfigError>)
    ensures
        match r {
            Ok(after) => cache_env_defect(*values) is None && cache_overridden(
                before,
                *values,
                after,
            ),
            Err(e) => e matches ConfigError::Environment(m) && cache_env_defect(*values) == Some(
                m@,
            ),
        },
{
    let mut after = before;
    match &values.cache_dir {
        Some(d) => {
            after.directory = d.clone();
        },
        None => {},
    }
    match env_number(&values.cache_ttl, "VALIDATE_XML_CACHE_TTL", u64::MAX) {
        Ok(Some(n)) => {
            after.ttl_hours = n;
        },
        Ok(None) => {},
        Err(e) => {
            return Err(e);
        },
    }
    match env_number(&values.max_cache_size, "VALIDATE_XML_MAX_CACHE_SIZE", u64::MAX) {
        Ok(Some(n)) => {
            after.max_size_mb = n;
        },
        Ok(None) => {},
        Err(e) => {
            return Err(e);
        },
    }
    Ok(after)
}

/// The network `before`, with what the environment overrides.
fn override_network(before: NetworkConfig, values: &EnvValues) -> (r: Result<
    NetworkConfig,
    ConfigError,
>)
    ensures
        match r {
            Ok(after) => network_env_defect(*values) is None && after == network_overridden(
                before,
                *values,
            ),
            Err(e) => e matches ConfigError::Environment(m) && network_env_defect(*values) == Some(
                m@,
            ),
        },
{
    let mut after = before;
    match env_number(&values.timeout, "VALIDATE_XML_TIMEOUT", u64::MAX) {
        Ok(Some(n)) => {
            after.timeout_seconds = n;
        },
        Ok(None) => {},
        Err(e) => {
            return Err(e);
        },
    }
    match env_number(&values.retry_attempts, "VALIDATE_XML_RETRY_ATTEMPTS", u32::MAX as u64) {
        Ok(Some(n)) => {
            after.retry_attempts = n as u32;
        },
        Ok(None) => {},
        Err(e) => {
            return Err(e);
        },
    }
    Ok(after)
}

/// The output `before`, with what the environment overrides.
fn override_output(before: OutputConfig, values: &EnvValues) -> (r: Result<
    OutputConfig,
    ConfigError,
>)
    ensures
        match r {
            Ok(after) => output_env_defect(*values) is None && after == output_overridden(
                before,
                *values,
            ),
            Err(e) => e matches ConfigError::Environment(m) && output_env_defect(*values) == Some(
                m@,
            ),
        },
{
    let mut after = before;
    match env_truth(&values.verbose, "VALIDATE_XML_VERBOSE") {
        Ok(Some(b)) => {
            after.verbose = b;
        },
        Ok(None) => {},
        Err(e) => {
            return Err(e);
        },
    }
    match env_truth(&values.quiet, "VALIDATE_XML_QUIET") {
        Ok(Some(b)) => {
            after.quiet = b;
        },
        Ok(None) => {},
        Err(e) => {
            return Err(e);
        },
    }
    match &values.format {
        Some(f) => match read_format(f.as_str()) {
            Some(format) => {
                after.format = format;
            },
            None => {
                return Err(env_error("VALIDATE_XML_FORMAT", f.as_str()));
            },
        },
        None => {},
    }
    Ok(after)
}

/// A copy of the texts `list`.
fn copy_texts(list: &Vec<String>) -> (r: Vec<String>)
    ensures
        r.deep_view() == list.deep_view(),
{
    let mut r: Vec<String> = Vec::new();
    let mut i: usize = 0;
    while i < list.len()
        invariant
            i <= list.len(),
            r.deep_view() == list.deep_view().take(i as int),
        decreases list.len() - i,
    {
        let ghost before = r.deep_view();
        r.push(list[i].clone());
        assert(r.deep_view() =~= before.push(list@[i as int]@));
        assert(list.deep_view().take(i + 1) =~= list.deep_view().take(i as int).push(
            list@[i as int]@,
        ));
        i = i + 1;
    }
    assert(list.deep_view().take(list.len() as int) =~= list.deep_view());
    r
}

} // verus!
