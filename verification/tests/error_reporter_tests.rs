//! What is said of errors.

use validate_xml::duration::Duration;
use validate_xml::error::{ConfigError, HttpFailure, ValidationError};
use validate_xml::error_reporter::{ErrorReporter, ValidationSummary, VerbosityLevel};

#[test]
fn test_error_reporter_verbosity_levels() {
    let reporter_quiet = ErrorReporter::new(VerbosityLevel::Quiet);
    let reporter_normal = ErrorReporter::new(VerbosityLevel::Normal);
    let reporter_verbose = ErrorReporter::new(VerbosityLevel::Verbose);
    let reporter_debug = ErrorReporter::new(VerbosityLevel::Debug);

    assert_eq!(reporter_quiet.verbosity, VerbosityLevel::Quiet);
    assert_eq!(reporter_normal.verbosity, VerbosityLevel::Normal);
    assert_eq!(reporter_verbose.verbosity, VerbosityLevel::Verbose);
    assert_eq!(reporter_debug.verbosity, VerbosityLevel::Debug);
}

#[test]
fn test_validation_summary_success_rate() {
    let mut summary = ValidationSummary::new();
    summary.total_files = 10;
    summary.valid_count = 8;
    summary.invalid_count = 1;
    summary.error_count = 1;

    assert_eq!(summary.success_rate_per_mille(), 800);
    assert!(!summary.is_successful());

    summary.error_count = 0;
    assert!(summary.is_successful());
}

#[test]
fn test_critical_error_detection() {
    let reporter = ErrorReporter::new(VerbosityLevel::Quiet);

    let config_error = ValidationError::Config("test".to_string());
    let validation_error = ValidationError::ValidationFailed {
        file: "test.xml".to_string(),
        details: "test".to_string(),
    };

    assert!(reporter.is_critical_error(&config_error));
    assert!(!reporter.is_critical_error(&validation_error));
    assert!(reporter.is_critical_error(&ValidationError::LibXml2Internal { details: "d".to_string() }));
    assert!(reporter.is_critical_error(&ValidationError::ResourceExhaustion {
        resource: "r".to_string(),
        details: "d".to_string()
    }));
}

#[test]
fn test_with_options_keeps_what_it_is_given() {
    let reporter = ErrorReporter::with_options(VerbosityLevel::Verbose, true, true);
    assert_eq!(reporter.verbosity, VerbosityLevel::Verbose);
    assert!(reporter.show_timestamps);
    assert!(reporter.show_error_codes);
    assert_eq!(ValidationSummary::default(), ValidationSummary::new());
    assert_eq!(ValidationSummary::new().success_rate_per_mille(), 0);
}

#[test]
fn test_what_is_said_of_an_error() {
    let failed = ValidationError::ValidationFailed {
        file: "a.xml".to_string(),
        details: "no".to_string(),
    };
    let missing = ValidationError::SchemaNotFound { url: "s.xsd".to_string() };
    let config = ValidationError::Config("c".to_string());
    let quiet = ErrorReporter::new(VerbosityLevel::Quiet);
    assert_eq!(quiet.format_error_brief(&failed), "INVALID: a.xml");
    assert_eq!(quiet.format_error_brief(&missing), "SCHEMA NOT FOUND: s.xsd");
    assert_eq!(quiet.format_error_brief(&config), "ERROR: Configuration error: c");
    assert_eq!(quiet.validation_error_report(&failed), None);
    assert_eq!(
        quiet.validation_error_report(&config),
        Some("ERROR: Configuration error: c".to_string())
    );

    let normal = ErrorReporter::new(VerbosityLevel::Normal);
    assert_eq!(normal.format_error_normal(&missing), "Schema not found: s.xsd");
    assert_eq!(
        normal.validation_error_report(&missing),
        Some("Schema not found: s.xsd".to_string())
    );

    let verbose = ErrorReporter::new(VerbosityLevel::Verbose);
    assert_eq!(
        verbose.format_error_verbose(&missing),
        "Schema not found: s.xsd\nSuggestion: Verify the schema URL is correct and accessible: s.xsd"
    );
    assert_eq!(
        verbose.format_error_verbose(&failed),
        "XML validation failed: a.xml - no\nFile: a.xml\nDetails: no\nSuggestion: Check XML syntax and schema compliance"
    );
    assert_eq!(
        verbose.format_error_verbose(&ValidationError::Cache("c".to_string())),
        "Cache error: c\nSuggestion: Try clearing the cache or check disk space"
    );
    assert_eq!(verbose.format_error_verbose(&config), "Configuration error: c");
    let http = ValidationError::Http(HttpFailure {
        message: "reset".to_string(),
        is_timeout: false,
        is_connect: false,
        is_request: true,
    });
    assert_eq!(
        verbose.format_error_verbose(&http),
        "HTTP error: reset\nSuggestion: Check network connectivity and URL validity"
    );
    let coded = ErrorReporter::with_options(VerbosityLevel::Debug, false, true);
    assert_eq!(
        coded.validation_error_report(&http),
        Some(
            "HTTP error: reset\nSuggestion: Check network connectivity and URL validity\nHTTP Error Details: reset"
                .to_string()
        )
    );
}

#[test]
fn test_timestamps_go_in_front() {
    let stamped = ErrorReporter::with_options(VerbosityLevel::Normal, true, false);
    let text = stamped.format_error_normal(&ValidationError::Config("c".to_string()));
    assert!(text.starts_with('['));
    assert!(text.ends_with("] Configuration error: c"));
    assert_eq!(text.len(), "[00:00:00] Configuration error: c".len());
}

#[test]
fn test_what_is_said_of_a_config_error() {
    let reporter = ErrorReporter::new(VerbosityLevel::Normal);
    let s = |t: &str| t.to_string();
    assert_eq!(
        reporter.get_config_help(&ConfigError::FileNotFound { path: s("p") }),
        "Try creating a configuration file at: p"
    );
    assert_eq!(
        reporter.get_config_help(&ConfigError::InvalidFormat { details: s("d") }),
        "Check the configuration file syntax (TOML/JSON format expected)"
    );
    assert_eq!(
        reporter.get_config_help(&ConfigError::MissingField { field: s("f") }),
        "Add the required field 'f' to your configuration"
    );
    assert_eq!(
        reporter.get_config_help(&ConfigError::InvalidValue {
            field: s("f"),
            value: s("v"),
            reason: s("r")
        }),
        "Fix the value for 'f': current='v', reason: r"
    );
    assert_eq!(
        reporter.get_config_help(&ConfigError::MergeConflict { details: s("d") }),
        "Resolve conflicting configuration values between file, environment, and CLI"
    );
    let error = ConfigError::MissingField { field: s("f") };
    assert_eq!(
        reporter.config_error_report(&error),
        "Configuration Error: Missing required configuration field: f\nAdd the required field 'f' to your configuration"
    );
    assert_eq!(
        ErrorReporter::new(VerbosityLevel::Quiet).config_error_report(&error),
        "Config error: Missing required configuration field: f"
    );
}

#[test]
fn test_progress_report() {
    let file = "dir/a.xml".to_string();
    assert_eq!(ErrorReporter::new(VerbosityLevel::Quiet).progress_report(1, 2, Some(&file)), None);
    assert_eq!(
        ErrorReporter::new(VerbosityLevel::Normal).progress_report(1, 3, Some(&file)),
        Some("\rProgress: 1/3 (33%)".to_string())
    );
    assert_eq!(
        ErrorReporter::new(VerbosityLevel::Verbose).progress_report(29, 100, Some(&file)),
        Some("\rProgress: 29/100 (29%) - Processing: dir/a.xml".to_string())
    );
    assert_eq!(
        ErrorReporter::new(VerbosityLevel::Debug).progress_report(0, 0, None),
        Some("\rProgress: 0/0 (0%)".to_string())
    );
}

#[test]
fn test_summary_report() {
    let summary = ValidationSummary {
        total_files: 10,
        valid_count: 7,
        invalid_count: 2,
        error_count: 1,
        duration: Duration::from_millis(1500),
        schemas_cached: 3,
        memory_usage_mb: 64,
        cache_hits: 8,
        cache_misses: 2,
    };
    assert_eq!(ErrorReporter::new(VerbosityLevel::Quiet).summary_report(&summary), vec!["Errors: 1"]);
    assert_eq!(
        ErrorReporter::new(VerbosityLevel::Quiet).summary_report(&ValidationSummary::new()),
        Vec::<String>::new()
    );
    assert_eq!(
        ErrorReporter::new(VerbosityLevel::Normal).summary_report(&summary),
        vec!["Validation Summary:", "  Total files: 10", "  Valid: 7", "  Invalid: 2", "  Errors: 1"]
    );
    let verbose = vec![
        "Validation Summary:",
        "  Total files processed: 10",
        "  Valid files: 7",
        "  Invalid files: 2",
        "  Files with errors: 1",
        "  Duration: 1.50s",
        "  Schemas cached: 3",
    ];
    assert_eq!(ErrorReporter::new(VerbosityLevel::Verbose).summary_report(&summary), verbose);
    let mut debug: Vec<&str> = verbose.clone();
    debug.extend(["  Memory usage: 64 MB", "  Cache hits: 8", "  Cache misses: 2"]);
    assert_eq!(ErrorReporter::new(VerbosityLevel::Debug).summary_report(&summary), debug);
}
