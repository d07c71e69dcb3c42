//! The configuration of a run.

use validate_xml::cli::{Cli, OutputFormat};
use validate_xml::config::{
    Config, ConfigError, ConfigFormat, ConfigManager, EnvProvider, EnvValues, FixedEnv,
    OutputFormatConfig,
};
use validate_xml::duration::Duration;

/// An environment for tests: what is set is what there is.
struct MockEnvProvider {
    vars: Vec<(String, String)>,
}

impl MockEnvProvider {
    fn new() -> Self {
        Self { vars: Vec::new() }
    }

    fn set(&mut self, key: &str, value: &str) {
        self.vars.retain(|(k, _)| k != key);
        self.vars.push((key.to_string(), value.to_string()));
    }
}

impl EnvProvider for MockEnvProvider {
    fn get(&self, key: &str) -> Option<String> {
        self.vars.iter().find(|(k, _)| k == key).map(|(_, v)| v.clone())
    }
}

fn no_values() -> EnvValues {
    EnvValues {
        threads: None,
        fail_fast: None,
        cache_dir: None,
        cache_ttl: None,
        max_cache_size: None,
        timeout: None,
        retry_attempts: None,
        verbose: None,
        quiet: None,
        format: None,
        extensions: None,
    }
}

#[test]
fn test_default_config() {
    let config = Config::default_in("/tmp");

    assert_eq!(config.validation.threads, None);
    assert!(!config.validation.fail_fast);
    assert!(!config.validation.show_progress);

    // Cache directory should be set to default path
    assert!(config.cache.directory.contains("validate-xml"));
    assert_eq!(config.cache.ttl_hours, 24);
    assert_eq!(config.cache.max_size_mb, 100);

    assert_eq!(config.network.timeout_seconds, 30);
    assert_eq!(config.network.retry_attempts, 3);
    assert_eq!(config.network.retry_delay_ms, 1000);

    assert_eq!(config.output.format, OutputFormatConfig::Human);
    assert!(!config.output.verbose);
    assert!(!config.output.quiet);

    assert_eq!(config.files.extensions, vec!["xml"]);
    assert!(config.files.include_patterns.is_empty());
    assert!(config.files.exclude_patterns.is_empty());
}

#[test]
fn test_environment_overrides() {
    // Create mock environment with test values
    let mut mock_env = MockEnvProvider::new();
    mock_env.set("VALIDATE_XML_THREADS", "16");
    mock_env.set("VALIDATE_XML_FAIL_FAST", "true");
    mock_env.set("VALIDATE_XML_CACHE_DIR", "/env/cache");
    mock_env.set("VALIDATE_XML_CACHE_TTL", "72");
    mock_env.set("VALIDATE_XML_TIMEOUT", "120");
    mock_env.set("VALIDATE_XML_VERBOSE", "true");
    mock_env.set("VALIDATE_XML_FORMAT", "json");
    mock_env.set("VALIDATE_XML_EXTENSIONS", "xml,cmdi");

    let base_config = Config::default_in("/tmp");
    let config = ConfigManager::apply_environment_overrides_with(&mock_env, base_config).unwrap();

    assert_eq!(config.validation.threads, Some(16));
    assert!(config.validation.fail_fast);
    assert_eq!(config.cache.directory, "/env/cache");
    assert_eq!(config.cache.ttl_hours, 72);
    assert_eq!(config.network.timeout_seconds, 120);
    assert!(config.output.verbose);
    assert_eq!(config.output.format, OutputFormatConfig::Json);
    assert_eq!(config.files.extensions, vec!["xml", "cmdi"]);
}

#[test]
fn test_invalid_environment_values() {
    // Create mock environment with invalid value
    let mut mock_env = MockEnvProvider::new();
    mock_env.set("VALIDATE_XML_THREADS", "invalid");

    let base_config = Config::default_in("/tmp");
    let result = ConfigManager::apply_environment_overrides_with(&mock_env, base_config);

    assert!(result.is_err());
    assert!(matches!(result.unwrap_err(), ConfigError::Environment(_)));
}

#[test]
fn test_environment_without_variables_changes_nothing() {
    let config = Config::default_in("/tmp");
    let after =
        ConfigManager::apply_environment_overrides_with(&FixedEnv::new(), config.clone()).unwrap();
    assert_eq!(after, config);
    assert_eq!(ConfigManager::apply_overrides(config.clone(), no_values()), Ok(config));
}

#[test]
fn test_fixed_env_gives_the_last_value_set() {
    let mut env = FixedEnv::new();
    assert_eq!(env.get("VALIDATE_XML_THREADS"), None);
    env.set("VALIDATE_XML_THREADS", "2");
    env.set("VALIDATE_XML_QUIET", "true");
    env.set("VALIDATE_XML_THREADS", "3");
    assert_eq!(env.get("VALIDATE_XML_THREADS"), Some("3".to_string()));
    assert_eq!(env.get("VALIDATE_XML_QUIET"), Some("true".to_string()));
    let config = ConfigManager::apply_environment_overrides_with(&env, Config::default_in("/tmp")).unwrap();
    assert_eq!(config.validation.threads, Some(3));
    assert!(config.output.quiet);
}

#[test]
fn test_every_environment_variable_is_heeded() {
    let values = EnvValues {
        threads: Some("+7".to_string()),
        fail_fast: Some("false".to_string()),
        cache_dir: Some("cache here".to_string()),
        cache_ttl: Some("0012".to_string()),
        max_cache_size: Some("18446744073709551615".to_string()),
        timeout: Some("5".to_string()),
        retry_attempts: Some("4294967295".to_string()),
        verbose: Some("false".to_string()),
        quiet: Some("true".to_string()),
        format: Some("SUMMARY".to_string()),
        extensions: Some(" xml , ,xsd,".to_string()),
    };
    let mut base = Config::default_in("/tmp");
    base.validation.fail_fast = true;
    base.validation.show_progress = true;
    base.network.retry_delay_ms = 77;
    let config = ConfigManager::apply_overrides(base, values).unwrap();
    assert_eq!(config.validation.threads, Some(7));
    assert!(!config.validation.fail_fast);
    assert!(config.validation.show_progress);
    assert_eq!(config.cache.directory, "cache here");
    assert_eq!(config.cache.ttl_hours, 12);
    assert_eq!(config.cache.max_size_mb, u64::MAX);
    assert_eq!(config.cache.max_memory_entries, 1000);
    assert_eq!(config.network.timeout_seconds, 5);
    assert_eq!(config.network.retry_attempts, u32::MAX);
    assert_eq!(config.network.retry_delay_ms, 77);
    assert!(!config.output.verbose);
    assert!(config.output.quiet);
    assert_eq!(config.output.format, OutputFormatConfig::Summary);
    assert_eq!(config.files.extensions, vec!["xml", "xsd"]);
}

#[test]
fn test_each_bad_environment_value_is_named() {
    let cases: Vec<(fn(&mut EnvValues, String), &str, &str)> = vec![
        (|v, s| v.threads = Some(s), "-1", "Invalid VALIDATE_XML_THREADS value: -1"),
        (|v, s| v.fail_fast = Some(s), "True", "Invalid VALIDATE_XML_FAIL_FAST value: True"),
        (|v, s| v.cache_ttl = Some(s), "", "Invalid VALIDATE_XML_CACHE_TTL value: "),
        (
            |v, s| v.max_cache_size = Some(s),
            "18446744073709551616",
            "Invalid VALIDATE_XML_MAX_CACHE_SIZE value: 18446744073709551616",
        ),
        (|v, s| v.timeout = Some(s), " 5", "Invalid VALIDATE_XML_TIMEOUT value:  5"),
        (
            |v, s| v.retry_attempts = Some(s),
            "4294967296",
            "Invalid VALIDATE_XML_RETRY_ATTEMPTS value: 4294967296",
        ),
        (|v, s| v.verbose = Some(s), "yes", "Invalid VALIDATE_XML_VERBOSE value: yes"),
        (|v, s| v.quiet = Some(s), "1", "Invalid VALIDATE_XML_QUIET value: 1"),
        (|v, s| v.format = Some(s), "xml", "Invalid VALIDATE_XML_FORMAT value: xml"),
    ];
    for (set, value, message) in cases {
        let mut values = no_values();
        set(&mut values, value.to_string());
        assert_eq!(
            ConfigManager::apply_overrides(Config::default_in("/tmp"), values),
            Err(ConfigError::Environment(message.to_string()))
        );
    }
}

#[test]
fn test_the_first_bad_environment_value_counts() {
    let mut values = no_values();
    values.format = Some("nope".to_string());
    values.timeout = Some("soon".to_string());
    assert_eq!(
        ConfigManager::apply_overrides(Config::default_in("/tmp"), values),
        Err(ConfigError::Environment("Invalid VALIDATE_XML_TIMEOUT value: soon".to_string()))
    );
}

fn cli_with(threads: Option<usize>) -> Cli {
    let mut cli = Cli::new("/tmp/validate-xml-test".to_string());
    cli.threads = threads;
    cli
}

#[test]
fn test_merge_with_cli() {
    let args = vec![
        "validate-xml",
        "--threads",
        "12",
        "--verbose",
        "--cache-ttl",
        "36",
        "--timeout",
        "90",
        "--extensions",
        "xml,xsd",
        "--format",
        "summary",
    ];
    let mut cli = cli_with(Some(args[2].parse().unwrap()));
    cli.verbose = true;
    cli.cache_ttl = args[5].parse().unwrap();
    cli.timeout = args[7].parse().unwrap();
    cli.extensions = args[9].to_string();
    cli.output_format = OutputFormat::Summary;
    let base_config = Config::default_in("/tmp");
    let config = ConfigManager::merge_with_cli(base_config, &cli);

    assert_eq!(config.validation.threads, Some(12));
    assert!(config.output.verbose);
    assert_eq!(config.cache.ttl_hours, 36);
    assert_eq!(config.network.timeout_seconds, 90);
    assert_eq!(config.files.extensions, vec!["xml", "xsd"]);
    assert_eq!(config.output.format, OutputFormatConfig::Summary);
}

#[test]
fn test_merge_with_cli_keeps_what_the_arguments_leave_open() {
    let mut base = Config::default_in("/tmp");
    base.validation.threads = Some(3);
    base.cache.directory = "/from/config".to_string();
    base.files.include_patterns = vec!["a*".to_string()];
    base.files.exclude_patterns = vec!["b*".to_string()];
    base.network.retry_delay_ms = 5;
    let config = ConfigManager::merge_with_cli(base, &cli_with(None));
    assert_eq!(config.validation.threads, Some(3));
    assert_eq!(config.cache.directory, "/from/config");
    assert_eq!(config.files.include_patterns, vec!["a*"]);
    assert_eq!(config.files.exclude_patterns, vec!["b*"]);
    assert_eq!(config.network.retry_delay_ms, 5);
    assert_eq!(config.cache.max_size_mb, 100);
    assert_eq!(config.network.retry_attempts, 3);

    let mut cli = cli_with(None);
    cli.cache_dir = Some("/from/cli".to_string());
    cli.include_patterns = vec!["c*".to_string()];
    cli.exclude_patterns = vec!["d*".to_string(), "e*".to_string()];
    let config = ConfigManager::merge_with_cli(Config::default_in("/tmp"), &cli);
    assert_eq!(config.cache.directory, "/from/cli");
    assert_eq!(config.files.include_patterns, vec!["c*"]);
    assert_eq!(config.files.exclude_patterns, vec!["d*", "e*"]);
}

#[test]
fn test_merge_configs() {
    let mut base = Config::default_in("/tmp");
    base.validation.threads = Some(4);
    base.cache.ttl_hours = 12;

    let mut override_config = Config::default_in("/tmp");
    override_config.validation.threads = Some(8);
    override_config.network.timeout_seconds = 60;

    let merged = ConfigManager::merge_configs(base, override_config);

    assert_eq!(merged.validation.threads, Some(8)); // Override wins
    assert_eq!(merged.network.timeout_seconds, 60); // Override wins
    assert_eq!(merged.cache.ttl_hours, 24); // Default from override_config (24 is the default)
}

#[test]
fn test_merge_configs_keeps_lists_that_the_override_leaves_empty() {
    let mut base = Config::default_in("/tmp");
    base.validation.threads = Some(4);
    base.files.extensions = vec!["cmdi".to_string()];
    base.files.include_patterns = vec!["x".to_string()];
    base.cache.max_memory_entries = 5;
    base.cache.memory_ttl_seconds = 6;
    let mut over = Config::default_in("/tmp");
    over.files.extensions = vec![];
    over.files.exclude_patterns = vec!["y".to_string()];
    over.cache.directory = "/over".to_string();
    over.output.quiet = true;
    let merged = ConfigManager::merge_configs(base, over);
    assert_eq!(merged.validation.threads, Some(4));
    assert_eq!(merged.files.extensions, vec!["cmdi"]);
    assert_eq!(merged.files.include_patterns, vec!["x"]);
    assert_eq!(merged.files.exclude_patterns, vec!["y"]);
    assert_eq!(merged.cache.directory, "/over");
    assert_eq!(merged.cache.max_memory_entries, 5);
    assert_eq!(merged.cache.memory_ttl_seconds, 6);
    assert!(merged.output.quiet);
}

#[test]
fn test_config_validation() {
    let mut config = Config::default_in("/tmp");

    // Valid config should pass
    assert!(ConfigManager::validate_config(&config).is_ok());

    // Invalid threads
    config.validation.threads = Some(0);
    assert!(ConfigManager::validate_config(&config).is_err());

    config.validation.threads = Some(1001);
    assert!(ConfigManager::validate_config(&config).is_err());

    // Reset threads
    config.validation.threads = Some(4);

    // Invalid cache TTL
    config.cache.ttl_hours = 0;
    assert!(ConfigManager::validate_config(&config).is_err());

    // Reset cache TTL
    config.cache.ttl_hours = 24;

    // Invalid timeout
    config.network.timeout_seconds = 0;
    assert!(ConfigManager::validate_config(&config).is_err());

    // Reset timeout
    config.network.timeout_seconds = 30;

    // Invalid verbose + quiet
    config.output.verbose = true;
    config.output.quiet = true;
    assert!(ConfigManager::validate_config(&config).is_err());

    // Reset output
    config.output.verbose = false;
    config.output.quiet = false;

    // Invalid extensions
    config.files.extensions = vec![];
    assert!(ConfigManager::validate_config(&config).is_err());

    config.files.extensions = vec!["invalid/ext".to_string()];
    assert!(ConfigManager::validate_config(&config).is_err());
}

#[test]
fn test_config_validation_messages() {
    let broken = |change: fn(&mut Config)| {
        let mut config = Config::default_in("/tmp");
        change(&mut config);
        match ConfigManager::validate_config(&config) {
            Err(ConfigError::Validation(m)) => m,
            other => panic!("expected a validation error, got {:?}", other),
        }
    };
    assert_eq!(
        broken(|c| c.validation.threads = Some(0)),
        "Number of threads must be greater than 0"
    );
    assert_eq!(
        broken(|c| c.validation.threads = Some(1001)),
        "Number of threads cannot exceed 1000"
    );
    assert_eq!(broken(|c| c.cache.ttl_hours = 0), "Cache TTL must be greater than 0");
    assert_eq!(broken(|c| c.cache.max_size_mb = 0), "Cache max size must be greater than 0");
    assert_eq!(broken(|c| c.network.timeout_seconds = 0), "Timeout must be greater than 0");
    assert_eq!(broken(|c| c.network.retry_attempts = 11), "Retry attempts cannot exceed 10");
    assert_eq!(
        broken(|c| {
            c.output.verbose = true;
            c.output.quiet = true;
        }),
        "Cannot enable both verbose and quiet modes"
    );
    assert_eq!(
        broken(|c| c.files.extensions = vec![]),
        "At least one file extension must be specified"
    );
    assert_eq!(
        broken(|c| c.files.extensions = vec!["xml".to_string(), "a.b".to_string(), "c/d".to_string()]),
        "Invalid file extension: a.b"
    );
    assert_eq!(
        broken(|c| c.files.extensions = vec!["a\\b".to_string()]),
        "Invalid file extension: a\\b"
    );
    let mut edge = Config::default_in("/tmp");
    edge.validation.threads = Some(1000);
    edge.network.retry_attempts = 10;
    assert_eq!(ConfigManager::validate_config(&edge), Ok(()));
}

#[test]
fn test_utility_functions() {
    let config = Config::default_in("/tmp");

    // Test cache directory
    let cache_dir = ConfigManager::get_cache_directory(&config);
    assert!(cache_dir.contains("validate-xml"));

    // Test thread count
    let thread_count = ConfigManager::get_thread_count(&config, Some(2));
    assert!(thread_count >= 1);

    // Test duration conversions
    let timeout = ConfigManager::get_timeout_duration(&config);
    assert_eq!(timeout, Duration::from_secs(30));

    let cache_ttl = ConfigManager::get_cache_ttl_duration(&config);
    assert_eq!(cache_ttl, Duration::from_secs(24 * 3600));

    let retry_delay = ConfigManager::get_retry_delay_duration(&config);
    assert_eq!(retry_delay, Duration::from_millis(1000));
}

#[test]
fn test_thread_count_falls_back() {
    let mut config = Config::default_in("/tmp");
    assert_eq!(ConfigManager::get_thread_count(&config, Some(2)), 2);
    assert_eq!(ConfigManager::get_thread_count(&config, None), 4);
    config.validation.threads = Some(9);
    assert_eq!(ConfigManager::get_thread_count(&config, Some(2)), 9);
}

#[test]
fn test_output_format_conversion() {
    assert_eq!(OutputFormatConfig::from(OutputFormat::Human), OutputFormatConfig::Human);
    assert_eq!(OutputFormatConfig::from(OutputFormat::Json), OutputFormatConfig::Json);
    assert_eq!(OutputFormatConfig::from(OutputFormat::Summary), OutputFormatConfig::Summary);

    assert_eq!(OutputFormat::from(OutputFormatConfig::Human), OutputFormat::Human);
    assert_eq!(OutputFormat::from(OutputFormatConfig::Json), OutputFormat::Json);
    assert_eq!(OutputFormat::from(OutputFormatConfig::Summary), OutputFormat::Summary);
}

#[test]
fn test_unsupported_file_format() {
    let result = ConfigManager::config_format("/tmp/config.yaml");
    assert!(result.is_err());

    match result.unwrap_err() {
        ConfigError::UnsupportedFormat(ext) => assert_eq!(ext, "yaml"),
        _ => panic!("Expected UnsupportedFormat error"),
    }
}

#[test]
fn test_config_format_by_extension() {
    assert_eq!(ConfigManager::config_format("config.toml"), Ok(ConfigFormat::Toml));
    assert_eq!(ConfigManager::config_format("/etc/x/config.json"), Ok(ConfigFormat::Json));
    assert_eq!(ConfigManager::config_format("/etc/x.d/config"), Ok(ConfigFormat::TomlThenJson));
    assert_eq!(ConfigManager::config_format(".toml"), Ok(ConfigFormat::TomlThenJson));
    assert_eq!(
        ConfigManager::config_format("config.TOML"),
        Err(ConfigError::UnsupportedFormat("TOML".to_string()))
    );
}

#[test]
fn test_assemble_lays_the_sources_over_each_other() {
    let mut from_file = Config::default_in("/tmp");
    from_file.validation.threads = Some(6);
    from_file.cache.ttl_hours = 48;
    from_file.network.retry_delay_ms = 250;
    let mut env = FixedEnv::new();
    env.set("VALIDATE_XML_EXTENSIONS", "cmdi");
    env.set("VALIDATE_XML_THREADS", "7");
    let mut cli = cli_with(Some(8));
    cli.verbose = true;
    let config = ConfigManager::assemble(Some(from_file), &env, &cli, "/tmp").unwrap();
    // The command line has the last word, also with what it leaves unsaid.
    assert_eq!(config.validation.threads, Some(8));
    assert!(config.output.verbose);
    assert_eq!(config.cache.ttl_hours, 24);
    assert_eq!(config.files.extensions, vec!["xml"]);
    assert_eq!(config.network.retry_delay_ms, 250);

    env.set("VALIDATE_XML_QUIET", "maybe");
    assert_eq!(
        ConfigManager::assemble(None, &env, &cli, "/tmp"),
        Err(ConfigError::Environment("Invalid VALIDATE_XML_QUIET value: maybe".to_string()))
    );
    cli.quiet = true;
    assert_eq!(
        ConfigManager::assemble(None, &FixedEnv::new(), &cli, "/tmp"),
        Err(ConfigError::Validation("Cannot enable both verbose and quiet modes".to_string()))
    );
}

#[test]
fn test_config_error_texts() {
    assert_eq!(
        ConfigError::Validation("v".to_string()).to_string(),
        "Configuration validation error: v"
    );
    assert_eq!(
        ConfigError::Environment("e".to_string()).to_string(),
        "Environment variable error: e"
    );
    assert_eq!(
        ConfigError::UnsupportedFormat("yaml".to_string()).to_string(),
        "Unsupported configuration file format: yaml"
    );
    assert_eq!(ConfigError::TomlParsing("t".to_string()).to_string(), "TOML parsing error: t");
    assert_eq!(ConfigError::JsonParsing("j".to_string()).to_string(), "JSON parsing error: j");
}

#[test]
fn test_where_a_configuration_file_is_looked_for() {
    assert_eq!(
        ConfigManager::config_candidates(None),
        vec!["validate-xml.toml", "validate-xml.json", ".validate-xml.toml", ".validate-xml.json"]
    );
    assert_eq!(
        ConfigManager::config_candidates(Some("/home/a/.config")),
        vec![
            "validate-xml.toml",
            "validate-xml.json",
            ".validate-xml.toml",
            ".validate-xml.json",
            "/home/a/.config/validate-xml/validate-xml.toml",
            "/home/a/.config/validate-xml/validate-xml.json",
            "/home/a/.config/validate-xml/.validate-xml.toml",
            "/home/a/.config/validate-xml/.validate-xml.json",
        ]
    );
}

#[test]
fn test_read_environment_asks_for_each_variable_under_its_name() {
    let mut env = FixedEnv::new();
    env.set("VALIDATE_XML_THREADS", "8");
    env.set("VALIDATE_XML_FAIL_FAST", "true");
    env.set("VALIDATE_XML_CACHE_DIR", "/var/cache/x");
    env.set("VALIDATE_XML_CACHE_TTL", "48");
    env.set("VALIDATE_XML_MAX_CACHE_SIZE", "200");
    env.set("VALIDATE_XML_TIMEOUT", "60");
    env.set("VALIDATE_XML_RETRY_ATTEMPTS", "5");
    env.set("VALIDATE_XML_VERBOSE", "1");
    env.set("VALIDATE_XML_QUIET", "0");
    env.set("VALIDATE_XML_FORMAT", "json");
    env.set("VALIDATE_XML_EXTENSIONS", "xml,cmdi");
    env.set("UNRELATED", "x");
    let values = ConfigManager::read_environment(&env);
    assert_eq!(
        values,
        EnvValues {
            threads: Some("8".to_string()),
            fail_fast: Some("true".to_string()),
            cache_dir: Some("/var/cache/x".to_string()),
            cache_ttl: Some("48".to_string()),
            max_cache_size: Some("200".to_string()),
            timeout: Some("60".to_string()),
            retry_attempts: Some("5".to_string()),
            verbose: Some("1".to_string()),
            quiet: Some("0".to_string()),
            format: Some("json".to_string()),
            extensions: Some("xml,cmdi".to_string()),
        }
    );
}

#[test]
fn test_read_environment_of_an_empty_environment() {
    let values = ConfigManager::read_environment(&FixedEnv::new());
    assert_eq!(values.threads, None);
    assert_eq!(values.format, None);
    assert_eq!(values.extensions, None);
}

#[test]
fn test_read_environment_takes_the_value_set_last() {
    let mut env = FixedEnv::new();
    env.set("VALIDATE_XML_THREADS", "2");
    env.set("VALIDATE_XML_THREADS", "4");
    let values = ConfigManager::read_environment(&env);
    assert_eq!(values.threads, Some("4".to_string()));
    assert_eq!(values.timeout, None);
}
