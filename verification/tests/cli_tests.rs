//! The arguments of the command line.

use validate_xml::cli::{cache_dir_in, default_cache_dir, Cli, OutputFormat, PathFacts};
use validate_xml::config::{Config, ConfigManager};

/// Reads arguments the way the program does, as far as these tests use them.
fn cli_from(args: &[&str]) -> Cli {
    let mut cli = Cli::new(String::new());
    let mut i = 1;
    while i < args.len() {
        let arg = args[i];
        let value = |i: usize| args[i + 1].to_string();
        match arg {
            "--extensions" => {
                cli.extensions = value(i);
                i += 1;
            }
            "--threads" => {
                cli.threads = Some(value(i).parse().unwrap());
                i += 1;
            }
            "--verbose" => cli.verbose = true,
            "--quiet" => cli.quiet = true,
            "--config" => {
                cli.config = Some(value(i));
                i += 1;
            }
            "--cache-dir" => {
                cli.cache_dir = Some(value(i));
                i += 1;
            }
            "--cache-ttl" => {
                cli.cache_ttl = value(i).parse().unwrap();
                i += 1;
            }
            "--timeout" => {
                cli.timeout = value(i).parse().unwrap();
                i += 1;
            }
            "--retry-attempts" => {
                cli.retry_attempts = value(i).parse().unwrap();
                i += 1;
            }
            "--include" => {
                cli.include_patterns.push(value(i));
                i += 1;
            }
            "--exclude" => {
                cli.exclude_patterns.push(value(i));
                i += 1;
            }
            "--format" => {
                cli.output_format = match value(i).as_str() {
                    "json" => OutputFormat::Json,
                    "summary" => OutputFormat::Summary,
                    _ => OutputFormat::Human,
                };
                i += 1;
            }
            "--progress" => cli.progress = true,
            "--fail-fast" => cli.fail_fast = true,
            "--max-cache-size" => {
                cli.max_cache_size = value(i).parse().unwrap();
                i += 1;
            }
            directory => cli.directory = directory.to_string(),
        }
        i += 1;
    }
    cli
}

/// What the file system says where the directory to scan is a directory and
/// nothing else that is named exists.
fn directory_only() -> PathFacts {
    PathFacts {
        directory_exists: true,
        directory_is_dir: true,
        config_exists: false,
        cache_dir_exists: false,
        cache_dir_is_dir: false,
    }
}

const TEMP_DIR: &str = "/tmp/validate-xml-test";

#[test]
fn test_basic_cli_parsing() {
    let args = vec!["validate-xml", "/tmp"];
    let cli = cli_from(&args);

    assert_eq!(cli.directory, "/tmp");
    assert_eq!(cli.extensions, "xml");
    assert!(!cli.verbose);
    assert!(!cli.quiet);
    assert_eq!(cli.cache_ttl, 24);
    assert_eq!(cli.timeout, 30);
    assert_eq!(cli.retry_attempts, 3);
}

// That `--verbose` and `--quiet` exclude one another on the command line is
// a rule of the argument parser, and the parser belongs to the program. The
// library's part is the check of the configuration, which refuses the two
// together: that is what is tried here.
#[test]
fn test_conflicting_verbose_quiet() {
    let args = vec!["validate-xml", "--verbose", "--quiet", "/tmp"];
    let cli = cli_from(&args);
    let config = ConfigManager::merge_with_cli(Config::default_in("/tmp"), &cli);
    let result = ConfigManager::validate_config(&config);
    assert!(result.is_err());
}

#[test]
fn test_get_extensions() {
    let args = vec!["validate-xml", "--extensions", "xml,cmdi, xsd ,txt", "/tmp"];
    let cli = cli_from(&args);

    assert_eq!(cli.get_extensions(), vec!["xml", "cmdi", "xsd", "txt"]);
}

#[test]
fn test_get_extensions_empty() {
    let args = vec!["validate-xml", "--extensions", "", "/tmp"];
    let cli = cli_from(&args);

    assert!(cli.get_extensions().is_empty());
}

#[test]
fn test_get_thread_count_default() {
    let args = vec!["validate-xml", "/tmp"];
    let cli = cli_from(&args);

    let thread_count = cli.get_thread_count(Some(8));
    assert!(thread_count >= 1);
    assert_eq!(thread_count, 8);
    assert_eq!(cli.get_thread_count(None), 4);
}

#[test]
fn test_get_thread_count_specified() {
    let args = vec!["validate-xml", "--threads", "16", "/tmp"];
    let cli = cli_from(&args);

    assert_eq!(cli.get_thread_count(Some(8)), 16);
}

#[test]
fn test_validation_nonexistent_directory() {
    let args = vec!["validate-xml", "/nonexistent/directory"];
    let cli = cli_from(&args);

    let facts = PathFacts { directory_exists: false, directory_is_dir: false, ..directory_only() };
    let result = cli.validate(&facts);
    assert!(result.is_err());
    assert!(result.unwrap_err().contains("Directory does not exist"));
}

#[test]
fn test_validation_file_as_directory() {
    let args = vec!["validate-xml", "/tmp/validate-xml-test/test_file.txt"];
    let cli = cli_from(&args);

    let facts = PathFacts { directory_is_dir: false, ..directory_only() };
    let result = cli.validate(&facts);
    assert!(result.is_err());
    assert!(result.unwrap_err().contains("Path is not a directory"));
}

#[test]
fn test_validation_zero_threads() {
    let args = vec!["validate-xml", "--threads", "0", TEMP_DIR];
    let cli = cli_from(&args);

    let result = cli.validate(&directory_only());
    assert!(result.is_err());
    assert!(result.unwrap_err().contains("Number of threads must be greater than 0"));
}

#[test]
fn test_validation_too_many_threads() {
    let args = vec!["validate-xml", "--threads", "1001", TEMP_DIR];
    let cli = cli_from(&args);

    let result = cli.validate(&directory_only());
    assert!(result.is_err());
    assert!(result.unwrap_err().contains("Number of threads cannot exceed 1000"));
}

#[test]
fn test_validation_zero_cache_ttl() {
    let args = vec!["validate-xml", "--cache-ttl", "0", TEMP_DIR];
    let cli = cli_from(&args);

    let result = cli.validate(&directory_only());
    assert!(result.is_err());
    assert!(result.unwrap_err().contains("Cache TTL must be greater than 0"));
}

#[test]
fn test_validation_zero_timeout() {
    let args = vec!["validate-xml", "--timeout", "0", TEMP_DIR];
    let cli = cli_from(&args);

    let result = cli.validate(&directory_only());
    assert!(result.is_err());
    assert!(result.unwrap_err().contains("Timeout must be greater than 0"));
}

#[test]
fn test_validation_invalid_extensions() {
    let args = vec!["validate-xml", "--extensions", "xml,invalid/ext", TEMP_DIR];
    let cli = cli_from(&args);

    let result = cli.validate(&directory_only());
    assert!(result.is_err());
    assert!(result.unwrap_err().contains("Invalid file extension"));
}

#[test]
fn test_validation_nonexistent_config() {
    let args = vec!["validate-xml", "--config", "/nonexistent/config.toml", TEMP_DIR];
    let cli = cli_from(&args);

    let result = cli.validate(&directory_only());
    assert!(result.is_err());
    assert!(result.unwrap_err().contains("Configuration file does not exist"));
}

#[test]
fn test_validation_cache_path_is_a_file() {
    let args = vec!["validate-xml", "--cache-dir", "/tmp/some-file", TEMP_DIR];
    let cli = cli_from(&args);

    let facts = PathFacts { cache_dir_exists: true, cache_dir_is_dir: false, ..directory_only() };
    assert_eq!(
        cli.validate(&facts),
        Err("Cache path is not a directory: /tmp/some-file".to_string())
    );
    let fine = PathFacts { cache_dir_exists: true, cache_dir_is_dir: true, ..directory_only() };
    assert_eq!(cli.validate(&fine), Ok(()));
}

#[test]
fn test_validation_reports_the_first_defect() {
    let args = vec!["validate-xml", "--threads", "0", "--timeout", "0", TEMP_DIR];
    let cli = cli_from(&args);
    assert_eq!(
        cli.validate(&directory_only()),
        Err("Number of threads must be greater than 0".to_string())
    );
    assert_eq!(cli_from(&["validate-xml", TEMP_DIR]).validate(&directory_only()), Ok(()));
}

#[test]
fn test_all_options() {
    let args = vec![
        "validate-xml",
        "--extensions",
        "xml,cmdi,xsd",
        "--threads",
        "8",
        "--verbose",
        "--config",
        "/tmp/validate-xml-test/config.toml",
        "--cache-dir",
        "/tmp/cache",
        "--cache-ttl",
        "48",
        "--timeout",
        "60",
        "--retry-attempts",
        "5",
        "--include",
        "*.xml",
        "--include",
        "test_*.cmdi",
        "--exclude",
        "temp_*",
        "--format",
        "json",
        "--progress",
        "--fail-fast",
        "--max-cache-size",
        "200",
        TEMP_DIR,
    ];
    let cli = cli_from(&args);

    assert_eq!(cli.get_extensions(), vec!["xml", "cmdi", "xsd"]);
    assert_eq!(cli.threads, Some(8));
    assert!(cli.verbose);
    assert!(!cli.quiet);
    assert_eq!(cli.cache_dir, Some("/tmp/cache".to_string()));
    assert_eq!(cli.cache_ttl, 48);
    assert_eq!(cli.timeout, 60);
    assert_eq!(cli.retry_attempts, 5);
    assert_eq!(cli.include_patterns, vec!["*.xml", "test_*.cmdi"]);
    assert_eq!(cli.exclude_patterns, vec!["temp_*"]);
    assert_eq!(cli.output_format, OutputFormat::Json);
    assert!(cli.progress);
    assert!(cli.fail_fast);
    assert_eq!(cli.max_cache_size, 200);
    let facts = PathFacts { config_exists: true, ..directory_only() };
    assert_eq!(cli.validate(&facts), Ok(()));
}

#[test]
fn test_is_verbose_and_quiet() {
    // Test verbose mode
    let args = vec!["validate-xml", "--verbose", TEMP_DIR];
    let cli = cli_from(&args);
    assert!(cli.is_verbose());
    assert!(!cli.is_quiet());

    // Test quiet mode
    let args = vec!["validate-xml", "--quiet", TEMP_DIR];
    let cli = cli_from(&args);
    assert!(!cli.is_verbose());
    assert!(cli.is_quiet());

    // Test default (neither verbose nor quiet)
    let args = vec!["validate-xml", TEMP_DIR];
    let cli = cli_from(&args);
    assert!(!cli.is_verbose());
    assert!(!cli.is_quiet());
}

#[test]
fn test_get_cache_dir_default() {
    let args = vec!["validate-xml", TEMP_DIR];
    let cli = cli_from(&args);

    let cache_dir = cli.get_cache_dir("/var/tmp");
    assert!(cache_dir.contains("validate-xml"));
    assert!(cache_dir.ends_with("/validate-xml"));
}

#[test]
fn test_get_cache_dir_specified() {
    let cache_path = "/tmp/custom-cache";
    let args = vec!["validate-xml", "--cache-dir", cache_path, TEMP_DIR];
    let cli = cli_from(&args);

    assert_eq!(cli.get_cache_dir("/var/tmp"), cache_path);
}

#[test]
fn test_output_format_parsing() {
    // Test human format (default)
    let args = vec!["validate-xml", TEMP_DIR];
    let cli = cli_from(&args);
    assert_eq!(cli.output_format, OutputFormat::Human);

    // Test JSON format
    let args = vec!["validate-xml", "--format", "json", TEMP_DIR];
    let cli = cli_from(&args);
    assert_eq!(cli.output_format, OutputFormat::Json);

    // Test summary format
    let args = vec!["validate-xml", "--format", "summary", TEMP_DIR];
    let cli = cli_from(&args);
    assert_eq!(cli.output_format, OutputFormat::Summary);
}

#[test]
fn test_cache_dir_below_the_users_cache_directory() {
    assert_eq!(
        cache_dir_in(Some("/home/u/.cache".to_string()), "/var/tmp"),
        "/home/u/.cache/validate-xml"
    );
}

#[test]
fn test_cache_dir_below_the_temporary_directory() {
    assert_eq!(cache_dir_in(None, "/var/tmp"), "/var/tmp/validate-xml");
    assert_eq!(cache_dir_in(None, "/scratch"), "/scratch/validate-xml");
}

#[test]
fn test_default_cache_dir_ends_in_the_name() {
    assert!(default_cache_dir("/var/tmp").ends_with("/validate-xml"));
}
