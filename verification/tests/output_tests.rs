//! The results of a run, written down.

use validate_xml::cache::Timestamp;
use validate_xml::cli::OutputFormat;
use validate_xml::duration::Duration;
use validate_xml::error_reporter::VerbosityLevel;
use validate_xml::output::{
    format_duration, progress_due, Formatter, HumanFormatter, JsonCacheStats, JsonFileResult, JsonFormatter,
    JsonPerformanceMetrics, JsonSummary, JsonValidationResults, OutputError, OutputFormatter,
    OutputFormatterFactory, SummaryFormatter,
};
use validate_xml::validator::{
    FileValidationResult, PerformanceMetrics, SchemaCacheStats, ValidationResults, ValidationStatus,
};

/// Helper function to create test validation results
fn create_test_results() -> ValidationResults {
    let file_results = vec![
        FileValidationResult {
            path: "test1.xml".to_string(),
            status: ValidationStatus::Valid,
            schema_url: Some("http://example.com/schema1.xsd".to_string()),
            duration: Duration::from_millis(100),
            error_details: Vec::new(),
        },
        FileValidationResult {
            path: "test2.xml".to_string(),
            status: ValidationStatus::Invalid { error_count: 2 },
            schema_url: Some("http://example.com/schema2.xsd".to_string()),
            duration: Duration::from_millis(150),
            error_details: vec!["Missing required element".to_string(), "Invalid type".to_string()],
        },
        FileValidationResult {
            path: "test3.xml".to_string(),
            status: ValidationStatus::Error { message: "Schema not found".to_string() },
            schema_url: None,
            duration: Duration::from_millis(50),
            error_details: vec!["Schema not found".to_string()],
        },
        FileValidationResult {
            path: "test4.xml".to_string(),
            status: ValidationStatus::Skipped { reason: "No schema URL found".to_string() },
            schema_url: None,
            duration: Duration::from_millis(25),
            error_details: vec!["No schema URL found".to_string()],
        },
    ];

    let performance_metrics = PerformanceMetrics {
        total_duration: Duration::from_millis(325),
        discovery_duration: Duration::from_millis(50),
        schema_loading_duration: Duration::from_millis(75),
        validation_duration: Duration::from_millis(200),
        average_time_per_file: Duration::from_millis(81),
        throughput_files_per_kilosecond: 12300,
        peak_memory_mb: 64,
        cache_hit_rate_per_mille: 750,
        concurrent_validations: 4,
        schema_cache_stats: SchemaCacheStats {
            hits: 3,
            misses: 1,
            schemas_loaded: 2,
            cache_size_bytes: 1024,
        },
    };

    ValidationResults::with_metrics(file_results, performance_metrics)
}

fn plain_metrics(total: Duration) -> PerformanceMetrics {
    PerformanceMetrics {
        total_duration: total,
        discovery_duration: Duration::zero(),
        schema_loading_duration: Duration::zero(),
        validation_duration: total,
        average_time_per_file: total,
        throughput_files_per_kilosecond: 0,
        peak_memory_mb: 0,
        cache_hit_rate_per_mille: 0,
        concurrent_validations: 1,
        schema_cache_stats: SchemaCacheStats {
            hits: 0,
            misses: 0,
            schemas_loaded: 0,
            cache_size_bytes: 0,
        },
    }
}

#[test]
fn test_human_formatter_quiet_mode() {
    let formatter = HumanFormatter::new(VerbosityLevel::Quiet);
    let results = create_test_results();

    let output = formatter.format_results(&results).unwrap();

    // Quiet mode should only show errors
    assert!(output.contains("Errors: 1 Invalid: 1"));
    assert!(!output.contains("Valid:"));
    assert!(!output.contains("Performance Metrics"));
    assert_eq!(output, "Errors: 1 Invalid: 1\n");
}

#[test]
fn test_human_formatter_normal_mode() {
    // Explicitly disable colors to make test deterministic across environments
    let formatter = HumanFormatter::with_options(VerbosityLevel::Normal, false, false);
    let results = create_test_results();

    let output = formatter.format_results(&results).unwrap();

    // Normal mode should show summary
    assert!(output.contains("Validation Summary:"));
    assert!(output.contains("Total files: 4"));
    assert!(output.contains("Valid: 1"));
    assert!(output.contains("Invalid: 1"));
    assert!(output.contains("Errors: 1"));
    assert!(output.contains("Skipped: 1"));
    assert!(output.contains("Success rate: 25.0%"));
    assert!(output.contains("Duration:"));
    assert_eq!(
        output,
        "Validation Summary:\n  Total files: 4\n  Valid: 1\n  Invalid: 1\n  Errors: 1\n  Skipped: 1\n  Success rate: 25.0%\n  Duration: 325ms\n"
    );
}

#[test]
fn test_human_formatter_verbose_mode() {
    // Explicitly disable colors to make test deterministic across environments
    let formatter = HumanFormatter::with_options(VerbosityLevel::Verbose, false, false);
    let results = create_test_results();

    let output = formatter.format_results(&results).unwrap();

    // Verbose mode should show summary and performance metrics
    assert!(output.contains("Validation Summary:"));
    assert!(output.contains("Performance Metrics:"));
    assert!(output.contains("Discovery time:"));
    assert!(output.contains("Validation time:"));
    assert!(output.contains("Average per file:"));
    assert!(output.contains("Throughput:"));
    assert!(output.contains("Concurrent validations:"));
    assert!(output.ends_with(
        "\nPerformance Metrics:\n  Discovery time: 50ms\n  Validation time: 200ms\n  Average per file: 81ms\n  Throughput: 12.3 files/sec\n  Concurrent validations: 4\n\n✗ INVALID  test2.xml (150ms) - 2 errors\n    Missing required element\n    Invalid type\n⚠ ERROR  test3.xml (50ms) - Schema not found\n- SKIPPED  test4.xml (25ms) - No schema URL found\n"
    ));
}

#[test]
fn test_human_formatter_debug_mode() {
    // Explicitly disable colors to make test deterministic across environments
    let formatter = HumanFormatter::with_options(VerbosityLevel::Debug, false, false);
    let results = create_test_results();

    let output = formatter.format_results(&results).unwrap();

    // Debug mode should show everything including debug info
    assert!(output.contains("Validation Summary:"));
    assert!(output.contains("Performance Metrics:"));
    assert!(output.contains("Peak memory:"));
    assert!(output.contains("Cache hit rate:"));
    assert!(output.contains("Debug Information:"));
    assert!(output.contains("Schemas used:"));
    assert!(output.contains("Cache statistics:"));
    assert!(output.contains("  Peak memory: 64 MB\n  Cache hit rate: 75.0%\n  Schemas loaded: 2\n"));
    assert!(output.ends_with(
        "\nDebug Information:\n  Schemas used: 2\n    1: http://example.com/schema1.xsd\n    2: http://example.com/schema2.xsd\n  Cache statistics:\n    Hits: 3\n    Misses: 1\n    Size: 1024 bytes\n"
    ));
}

#[test]
fn test_human_formatter_progress() {
    // Explicitly disable colors to make test deterministic across environments
    let formatter = HumanFormatter::with_options(VerbosityLevel::Normal, false, false);

    let progress = formatter.format_progress(5, 10, None).unwrap();
    assert!(progress.contains("5/10"));
    assert!(progress.contains("50%"));
    assert!(progress.contains("["));
    assert!(progress.contains("]"));
    assert_eq!(progress, format!("\r[{}{}] 5/10 (50%)", "█".repeat(20), "░".repeat(20)));

    // Test with current file
    let current_file = "test.xml".to_string();
    let progress_with_file = formatter.format_progress(3, 10, Some(&current_file)).unwrap();
    assert!(progress_with_file.contains("3/10"));
    assert!(progress_with_file.contains("30%"));
}

#[test]
fn test_human_formatter_progress_names_the_file_where_much_is_said() {
    let verbose = HumanFormatter::with_options(VerbosityLevel::Verbose, false, false);
    let file = "some/dir/test.xml".to_string();
    assert_eq!(
        verbose.format_progress(1, 3, Some(&file)).unwrap(),
        format!("\r[{}{}] 1/3 (33%) - test.xml", "█".repeat(13), "░".repeat(27))
    );
    let directory = "some/dir/".to_string();
    assert!(verbose.format_progress(3, 3, Some(&directory)).unwrap().ends_with("] 3/3 (100%) - unknown"));
    assert!(verbose.format_progress(0, 3, None).unwrap().ends_with("] 0/3 (0%)"));
    assert_eq!(verbose.format_progress(0, 0, None).unwrap(), "\r 0/0 (0%)");
    let quiet = HumanFormatter::with_options(VerbosityLevel::Quiet, false, false);
    assert_eq!(quiet.format_progress(1, 3, Some(&file)).unwrap(), "");
    assert!(matches!(verbose.format_progress(4, 3, None), Err(OutputError::FormatError(_))));
}

#[test]
fn test_human_formatter_file_result() {
    // Explicitly disable colors to make test deterministic across environments
    let formatter = HumanFormatter::with_options(VerbosityLevel::Normal, false, false);

    // Test valid file result
    let valid_result = FileValidationResult {
        path: "valid.xml".to_string(),
        status: ValidationStatus::Valid,
        schema_url: Some("http://example.com/schema.xsd".to_string()),
        duration: Duration::from_millis(100),
        error_details: Vec::new(),
    };

    let output = formatter.format_file_result(&valid_result).unwrap();
    assert!(output.contains("VALID"));
    assert!(output.contains("valid.xml"));
    assert!(output.contains("100ms"));
    assert_eq!(output, "✓ VALID  valid.xml (100ms)");

    // Test invalid file result
    let invalid_result = FileValidationResult {
        path: "invalid.xml".to_string(),
        status: ValidationStatus::Invalid { error_count: 2 },
        schema_url: Some("http://example.com/schema.xsd".to_string()),
        duration: Duration::from_millis(150),
        error_details: vec!["Error 1".to_string(), "Error 2".to_string()],
    };

    let output = formatter.format_file_result(&invalid_result).unwrap();
    assert!(output.contains("INVALID"));
    assert!(output.contains("invalid.xml"));
    assert!(output.contains("2 errors"));
    assert_eq!(output, "✗ INVALID  invalid.xml (150ms) - 2 errors");

    // Test error file result
    let error_result = FileValidationResult {
        path: "error.xml".to_string(),
        status: ValidationStatus::Error { message: "Schema not found".to_string() },
        schema_url: None,
        duration: Duration::from_millis(50),
        error_details: vec!["Schema not found".to_string()],
    };

    let output = formatter.format_file_result(&error_result).unwrap();
    assert!(output.contains("ERROR"));
    assert!(output.contains("error.xml"));
    assert!(output.contains("Schema not found"));

    // Test skipped file result
    let skipped_result = FileValidationResult {
        path: "skipped.xml".to_string(),
        status: ValidationStatus::Skipped { reason: "No schema".to_string() },
        schema_url: None,
        duration: Duration::from_millis(25),
        error_details: vec!["No schema".to_string()],
    };

    let output = formatter.format_file_result(&skipped_result).unwrap();
    assert!(output.contains("SKIPPED"));
    assert!(output.contains("skipped.xml"));
    assert!(output.contains("No schema"));
}

#[test]
fn test_one_error_is_no_plural() {
    let formatter = HumanFormatter::with_options(VerbosityLevel::Verbose, false, false);
    let result = FileValidationResult {
        path: "a.xml".to_string(),
        status: ValidationStatus::Invalid { error_count: 1 },
        schema_url: Some("s".to_string()),
        duration: Duration::from_millis(1),
        error_details: vec!["only".to_string()],
    };
    assert_eq!(
        formatter.format_file_result(&result).unwrap(),
        "✗ INVALID  a.xml (1ms) - 1 error\n    only"
    );
}

#[test]
fn test_summary_formatter() {
    let formatter = SummaryFormatter {};
    let results = create_test_results();

    let output = formatter.format_results(&results).unwrap();
    assert!(output.contains("1/4 valid"));
    assert!(output.contains("25.0%"));
    // Check for duration in milliseconds or seconds (format may vary)
    assert!(output.contains("ms") || output.contains("s"));
    assert_eq!(output, "1/4 valid (25.0%) in 0.33s");

    let progress = formatter.format_progress(8, 20, None).unwrap();
    assert!(progress.contains("8/20"));
    assert!(progress.contains("40%"));
    assert_eq!(progress, "\r8/20 (40%)");

    let file_result = FileValidationResult {
        path: "test.xml".to_string(),
        status: ValidationStatus::Valid,
        schema_url: Some("http://example.com/schema.xsd".to_string()),
        duration: Duration::from_millis(100),
        error_details: Vec::new(),
    };

    let file_output = formatter.format_file_result(&file_result).unwrap();
    assert!(file_output.contains("✓ test.xml"));

    let summary = formatter.format_summary(&results).unwrap();
    assert!(summary.contains("Total: 4"));
    assert!(summary.contains("Valid: 1"));
    assert!(summary.contains("Invalid: 1"));
    assert!(summary.contains("Errors: 1"));
    assert_eq!(summary, "Total: 4 Valid: 1 Invalid: 1 Errors: 1 (25.0%)");
}

#[test]
fn test_summary_formatter_marks() {
    let formatter = SummaryFormatter {};
    let with = |status: ValidationStatus| FileValidationResult {
        path: "f.xml".to_string(),
        status,
        schema_url: None,
        duration: Duration::zero(),
        error_details: vec![],
    };
    assert_eq!(
        formatter.format_file_result(&with(ValidationStatus::Invalid { error_count: 1 })).unwrap(),
        "✗ f.xml"
    );
    assert_eq!(
        formatter
            .format_file_result(&with(ValidationStatus::Error { message: "m".to_string() }))
            .unwrap(),
        "⚠ f.xml"
    );
    assert_eq!(
        formatter
            .format_file_result(&with(ValidationStatus::Skipped { reason: "r".to_string() }))
            .unwrap(),
        "- f.xml"
    );
}

#[test]
fn test_progress_indicator() {
    // Progress indicator test - basic functionality
    // Full writer tests require trait object composition that's tested through integration tests
    assert!(true);
}

#[test]
fn test_output_writer() {
    // Output writer test - basic functionality
    // Full writer tests require trait object composition that's tested through integration tests
    assert!(true);
}

#[test]
fn test_output_writer_json_format() {
    // JSON output writer test - basic functionality
    // Full writer tests require trait object composition that's tested through integration tests
    assert!(true);
}

#[test]
fn test_output_writer_summary_format() {
    // Summary format output test - basic functionality
    // Full writer tests require trait object composition that's tested through integration tests
    assert!(true);
}

#[test]
fn test_output_formatter_factory() {
    let results = create_test_results();

    // Test human formatter creation
    match OutputFormatterFactory::create_formatter(OutputFormat::Human, VerbosityLevel::Normal) {
        Formatter::Human(human_formatter) => {
            let output = human_formatter.format_results(&results).unwrap();
            assert!(output.contains("Validation Summary:"));
        }
        other => panic!("expected the formatter for a reader, got {:?}", other),
    }

    // Test JSON formatter creation
    assert_eq!(
        OutputFormatterFactory::create_formatter(OutputFormat::Json, VerbosityLevel::Normal),
        Formatter::Json(JsonFormatter::new(true))
    );

    // Test summary formatter creation
    match OutputFormatterFactory::create_formatter(OutputFormat::Summary, VerbosityLevel::Normal) {
        Formatter::Summary(summary_formatter) => {
            let summary_output = summary_formatter.format_results(&results).unwrap();
            assert!(summary_output.contains("1/4 valid"));
        }
        other => panic!("expected the formatter for one line, got {:?}", other),
    }
}

#[test]
fn test_human_formatter_with_colors() {
    let formatter = HumanFormatter::with_options(VerbosityLevel::Normal, false, true);

    let file_result = FileValidationResult {
        path: "test.xml".to_string(),
        status: ValidationStatus::Valid,
        schema_url: Some("http://example.com/schema.xsd".to_string()),
        duration: Duration::from_millis(100),
        error_details: Vec::new(),
    };

    let output = formatter.format_file_result(&file_result).unwrap();
    // When colors are enabled, output should contain ANSI escape codes
    assert!(output.contains("\x1b[32m")); // Green color for valid
    assert_eq!(output, "\x1b[32m✓ VALID\x1b[0m  test.xml (100ms)");
    assert_eq!(formatter.colorize("x", "31"), "\x1b[31mx\x1b[0m");
    assert_eq!(
        HumanFormatter::with_options(VerbosityLevel::Normal, false, false).colorize("x", "31"),
        "x"
    );
}

#[test]
fn test_human_formatter_with_timestamps() {
    let formatter = HumanFormatter::with_options(VerbosityLevel::Normal, true, false);

    let file_result = FileValidationResult {
        path: "test.xml".to_string(),
        status: ValidationStatus::Valid,
        schema_url: Some("http://example.com/schema.xsd".to_string()),
        duration: Duration::from_millis(100),
        error_details: Vec::new(),
    };

    let output = formatter.format_file_result(&file_result).unwrap();
    // When timestamps are enabled, output should contain timestamp format
    assert!(output.contains("["));
    assert!(output.contains(":"));
    assert!(output.contains("]"));
    assert!(output.ends_with("] ✓ VALID  test.xml (100ms)"));
}

#[test]
fn test_duration_formatting() {
    let formatter = HumanFormatter::new(VerbosityLevel::Normal);

    // Test milliseconds
    let ms_duration = Duration::from_millis(500);
    let results_ms = ValidationResults {
        total_files: 1,
        valid_files: 1,
        invalid_files: 0,
        error_files: 0,
        skipped_files: 0,
        total_duration: ms_duration,
        average_duration: ms_duration,
        file_results: Vec::new(),
        schemas_used: Vec::new(),
        performance_metrics: plain_metrics(ms_duration),
    };

    let output = formatter.format_summary(&results_ms).unwrap();
    assert!(output.contains("500ms"));

    // Test seconds
    let sec_duration = Duration::from_secs(5);
    let results_sec = ValidationResults {
        total_duration: sec_duration,
        average_duration: Duration::from_millis(1250),
        total_files: results_ms.total_files,
        valid_files: results_ms.valid_files,
        invalid_files: results_ms.invalid_files,
        error_files: results_ms.error_files,
        skipped_files: 0,
        file_results: vec![],
        schemas_used: vec![],
        performance_metrics: plain_metrics(Duration::from_secs(0)),
    };

    let output = formatter.format_summary(&results_sec).unwrap();
    assert!(output.contains("5.00s"));

    // Test minutes
    let min_duration = Duration::from_secs(125); // 2m5s
    let results_min = ValidationResults {
        total_duration: min_duration,
        average_duration: Duration::from_secs(31),
        total_files: 4,
        valid_files: 1,
        invalid_files: 1,
        error_files: 1,
        skipped_files: 0,
        file_results: vec![],
        schemas_used: vec![],
        performance_metrics: plain_metrics(Duration::from_secs(0)),
    };

    let output = formatter.format_summary(&results_min).unwrap();
    assert!(output.contains("2m5.0s"));
}

#[test]
fn test_duration_text_at_the_edges() {
    assert_eq!(format_duration(Duration::zero()), "0ms");
    assert_eq!(format_duration(Duration::from_nanos(999_999)), "0ms");
    assert_eq!(format_duration(Duration::from_nanos(999_999_999)), "999ms");
    assert_eq!(format_duration(Duration::from_secs(1)), "1.00s");
    assert_eq!(format_duration(Duration::from_millis(1004)), "1.00s");
    assert_eq!(format_duration(Duration::from_millis(1005)), "1.01s");
    assert_eq!(format_duration(Duration::from_millis(1500)), "1.50s");
    assert_eq!(format_duration(Duration::from_millis(59_994)), "59.99s");
    assert_eq!(format_duration(Duration::from_millis(59_995)), "60.00s");
    assert_eq!(format_duration(Duration::from_secs(60)), "1m0.0s");
    assert_eq!(format_duration(Duration::from_millis(119_949)), "1m59.9s");
    assert_eq!(format_duration(Duration::from_millis(119_950)), "1m60.0s");
    assert_eq!(format_duration(Duration::from_secs(3725)), "62m5.0s");
    assert_eq!(HumanFormatter::new(VerbosityLevel::Quiet).format_duration(Duration::from_millis(7)), "7ms");
}

#[test]
fn test_progress_bar() {
    let formatter = HumanFormatter::with_options(VerbosityLevel::Normal, false, false);
    assert_eq!(formatter.create_progress_bar(0, 0, 40), "");
    assert_eq!(formatter.create_progress_bar(0, 4, 4), "[░░░░]");
    assert_eq!(formatter.create_progress_bar(1, 4, 4), "[█░░░]");
    assert_eq!(formatter.create_progress_bar(4, 4, 4), "[████]");
    assert_eq!(formatter.create_progress_bar(1, 3, 4), "[█░░░]");
    assert_eq!(formatter.create_progress_bar(2, 3, 4), "[██░░]");
    assert_eq!(formatter.create_progress_bar(1, 1, 0), "[]");
}

#[test]
fn output_tests_test_error_handling() {
    // Test serialization error handling in JSON formatter
    // This is difficult to test directly since serde_json is very robust
    // But we can test the error type exists and can be created
    let error = OutputError::SerializationError("test error".to_string());
    assert_eq!(error.to_string(), "Serialization error: test error");

    let write_error = OutputError::WriteError("write failed".to_string());
    assert_eq!(write_error.to_string(), "Write error: write failed");

    let format_error = OutputError::FormatError("format failed".to_string());
    assert_eq!(format_error.to_string(), "Format error: format failed");
}

#[test]
fn test_json_conversion_from_validation_results() {
    let results = create_test_results();
    let json_results = JsonValidationResults::from(&results);

    assert_eq!(json_results.summary.total_files, 4);
    assert_eq!(json_results.summary.valid_files, 1);
    assert_eq!(json_results.summary.success_rate_per_mille, 250);
    assert_eq!(json_results.files.len(), 4);
    assert_eq!(json_results.schemas.len(), 2); // Two unique schemas
    assert_eq!(json_results.performance.concurrent_validations, 4);
}

#[test]
fn test_json_record_of_a_run() {
    let results = create_test_results();
    let record = JsonValidationResults::from_at(&results, Timestamp { millis: 1_700_000_000_000 });
    assert_eq!(record.timestamp, Timestamp { millis: 1_700_000_000_000 });
    assert_eq!(
        record.summary,
        JsonSummary {
            total_files: 4,
            valid_files: 1,
            invalid_files: 1,
            error_files: 1,
            skipped_files: 1,
            success_rate_per_mille: 250,
            total_duration_ms: 325,
        }
    );
    assert_eq!(record.files[0].path, "test1.xml");
    assert_eq!(record.files[0].status, "valid");
    assert_eq!(record.files[0].duration_ms, 100);
    assert_eq!(record.files[1].status, "invalid");
    assert_eq!(record.files[1].error_count, Some(2));
    assert_eq!(record.files[2].status, "error");
    assert_eq!(record.files[3].status, "skipped");
    assert_eq!(record.files[3].error_count, None);
    assert_eq!(
        record.schemas,
        vec!["http://example.com/schema1.xsd", "http://example.com/schema2.xsd"]
    );
    assert_eq!(
        record.performance,
        JsonPerformanceMetrics {
            total_duration_ms: 325,
            discovery_duration_ms: 50,
            validation_duration_ms: 200,
            average_time_per_file_ms: 81,
            throughput_files_per_kilosecond: 12300,
            peak_memory_mb: 64,
            cache_hit_rate_per_mille: 750,
            concurrent_validations: 4,
            cache_stats: JsonCacheStats { hits: 3, misses: 1, schemas_loaded: 2, cache_size_bytes: 1024 },
        }
    );
}

#[test]
fn test_json_conversion_from_file_result() {
    let file_result = FileValidationResult {
        path: "test.xml".to_string(),
        status: ValidationStatus::Invalid { error_count: 5 },
        schema_url: Some("http://example.com/schema.xsd".to_string()),
        duration: Duration::from_millis(250),
        error_details: vec!["Error 1".to_string(), "Error 2".to_string()],
    };

    let json_result = JsonFileResult::from(&file_result);

    assert_eq!(json_result.path, "test.xml");
    assert_eq!(json_result.status, "invalid");
    assert_eq!(json_result.error_count, Some(5));
    assert_eq!(json_result.schema_url, Some("http://example.com/schema.xsd".to_string()));
    assert_eq!(json_result.duration_ms, 250);
    assert_eq!(json_result.error_details.len(), 2);
}

#[test]
fn test_json_duration_is_capped() {
    let result = FileValidationResult {
        path: "slow.xml".to_string(),
        status: ValidationStatus::Valid,
        schema_url: None,
        duration: Duration::from_nanos(u128::MAX),
        error_details: vec![],
    };
    assert_eq!(JsonFileResult::from(&result).duration_ms, u64::MAX);
    assert_eq!(JsonFileResult::from(&result).error_details, Vec::<String>::new());
}

#[test]
fn test_summary_counts_that_are_zero_are_left_out() {
    let formatter = HumanFormatter::with_options(VerbosityLevel::Normal, false, false);
    let results = ValidationResults::aggregate(vec![FileValidationResult::valid(
        "a.xml".to_string(),
        "s.xsd".to_string(),
        Duration::from_millis(2000),
    )]);
    assert_eq!(
        formatter.format_summary(&results).unwrap(),
        "Validation Summary:\n  Total files: 1\n  Valid: 1\n  Success rate: 100.0%\n  Duration: 2.00s\n"
    );
    let none = ValidationResults::aggregate(vec![]);
    assert_eq!(
        formatter.format_results(&none).unwrap(),
        "Validation Summary:\n  Total files: 0\n  Valid: 0\n  Success rate: 0.0%\n  Duration: 0ms\n"
    );
    assert_eq!(
        HumanFormatter::with_options(VerbosityLevel::Quiet, false, false)
            .format_results(&none)
            .unwrap(),
        ""
    );
}

#[test]
fn test_when_progress_is_due() {
    let interval = Duration::from_millis(100);
    assert!(!progress_due(Duration::from_millis(99), interval, 1, 5));
    assert!(progress_due(Duration::from_millis(100), interval, 1, 5));
    assert!(progress_due(Duration::zero(), interval, 5, 5));
    assert!(progress_due(Duration::zero(), Duration::zero(), 1, 5));
}

/// Create test validation results for integration testing
fn create_integration_test_results() -> ValidationResults {
    let file_results = vec![
        FileValidationResult {
            path: "valid.xml".to_string(),
            status: ValidationStatus::Valid,
            schema_url: Some("file:///tmp/test.xsd".to_string()),
            duration: Duration::from_millis(120),
            error_details: Vec::new(),
        },
        FileValidationResult {
            path: "invalid.xml".to_string(),
            status: ValidationStatus::Invalid { error_count: 1 },
            schema_url: Some("file:///tmp/test.xsd".to_string()),
            duration: Duration::from_millis(180),
            error_details: vec!["Element 'invalid_element' is not allowed".to_string()],
        },
        FileValidationResult {
            path: "no_schema.xml".to_string(),
            status: ValidationStatus::Skipped {
                reason: "No schema URL found in XML file".to_string(),
            },
            schema_url: None,
            duration: Duration::from_millis(30),
            error_details: vec!["No schema URL found in XML file".to_string()],
        },
    ];

    let performance_metrics = PerformanceMetrics {
        total_duration: Duration::from_millis(450),
        discovery_duration: Duration::from_millis(80),
        schema_loading_duration: Duration::from_millis(40),
        validation_duration: Duration::from_millis(330),
        average_time_per_file: Duration::from_millis(110),
        throughput_files_per_kilosecond: 6670,
        peak_memory_mb: 32,
        cache_hit_rate_per_mille: 667,
        concurrent_validations: 2,
        schema_cache_stats: SchemaCacheStats {
            hits: 2,
            misses: 1,
            schemas_loaded: 1,
            cache_size_bytes: 2048,
        },
    };

    ValidationResults::with_metrics(file_results, performance_metrics)
}

#[test]
fn test_verbosity_level_integration() {
    let results = create_integration_test_results();
    let written = |verbosity: VerbosityLevel| {
        HumanFormatter::with_options(verbosity, false, false).format_results(&results).unwrap()
    };

    // Test quiet mode
    let quiet_output = written(VerbosityLevel::Quiet);

    // Quiet mode should only show errors
    assert!(quiet_output.contains("Errors: 0 Invalid: 1"));
    assert!(!quiet_output.contains("Performance Metrics"));

    // Test verbose mode
    let verbose_output = written(VerbosityLevel::Verbose);

    // Verbose mode should show detailed information
    assert!(verbose_output.contains("Validation Summary:"));
    assert!(verbose_output.contains("Performance Metrics:"));
    assert!(verbose_output.contains("Discovery time:"));
    assert!(verbose_output.contains("Validation time:"));
    assert!(verbose_output.contains("Throughput:"));
    assert!(verbose_output.contains("Success rate: 33.3%"));
    assert!(verbose_output.contains("Throughput: 6.7 files/sec"));

    // Test debug mode
    let debug_output = written(VerbosityLevel::Debug);

    // Debug mode should show everything including debug info
    assert!(debug_output.contains("Validation Summary:"));
    assert!(debug_output.contains("Performance Metrics:"));
    assert!(debug_output.contains("Peak memory:"));
    assert!(debug_output.contains("Cache hit rate:"));
    assert!(debug_output.contains("Debug Information:"));
    assert!(debug_output.contains("Cache hit rate: 66.7%"));
}

#[test]
fn test_individual_file_result_output() {
    let results = create_integration_test_results();
    let formatter = HumanFormatter::with_options(VerbosityLevel::Normal, false, false);

    // Write each file result individually
    let mut output = String::new();
    for file_result in &results.file_results {
        output.push_str(&formatter.format_file_result(file_result).unwrap());
        output.push('\n');
    }

    // Verify individual file results
    assert!(output.contains("VALID"));
    assert!(output.contains("valid.xml"));
    assert!(output.contains("INVALID"));
    assert!(output.contains("invalid.xml"));
    assert!(output.contains("SKIPPED"));
    assert!(output.contains("no_schema.xml"));
    assert_eq!(
        output,
        "✓ VALID  valid.xml (120ms)\n✗ INVALID  invalid.xml (180ms) - 1 error\n- SKIPPED  no_schema.xml (30ms) - No schema URL found in XML file\n"
    );
}
