//! The outcome of one file, and the summary of a run.

use validate_xml::duration::Duration;
use validate_xml::error::ValidationError;
use validate_xml::validator::{
    compute_mean, compute_per_mille, compute_throughput, FileValidationResult, PerformanceMetrics,
    SchemaCacheStats, ValidationConfig, ValidationResults, ValidationStatus,
};

#[test]
fn test_validation_status_predicates() {
    assert!(ValidationStatus::Valid.is_valid());
    assert!(!ValidationStatus::Valid.is_invalid());
    assert!(!ValidationStatus::Valid.is_error());
    assert!(!ValidationStatus::Valid.is_skipped());

    let invalid = ValidationStatus::Invalid { error_count: 1 };
    assert!(!invalid.is_valid());
    assert!(invalid.is_invalid());
    assert!(!invalid.is_error());
    assert!(!invalid.is_skipped());

    let error = ValidationStatus::Error { message: "test".to_string() };
    assert!(!error.is_valid());
    assert!(!error.is_invalid());
    assert!(error.is_error());
    assert!(!error.is_skipped());

    let skipped = ValidationStatus::Skipped { reason: "test".to_string() };
    assert!(!skipped.is_valid());
    assert!(!skipped.is_invalid());
    assert!(!skipped.is_error());
    assert!(skipped.is_skipped());
}

#[test]
fn test_file_validation_result_constructors() {
    let path = "test.xml".to_string();
    let duration = Duration::from_millis(100);

    let valid_result = FileValidationResult::valid(
        path.clone(),
        "http://example.com/schema.xsd".to_string(),
        duration,
    );
    assert!(valid_result.status.is_valid());
    assert_eq!(valid_result.schema_url, Some("http://example.com/schema.xsd".to_string()));
    assert_eq!(valid_result.path, "test.xml");
    assert_eq!(valid_result.duration, duration);
    assert!(valid_result.error_details.is_empty());

    let invalid_result = FileValidationResult::invalid(
        path.clone(),
        "http://example.com/schema.xsd".to_string(),
        3,
        duration,
        vec!["error1".to_string(), "error2".to_string(), "error3".to_string()],
    );
    assert!(invalid_result.status.is_invalid());
    assert_eq!(invalid_result.status, ValidationStatus::Invalid { error_count: 3 });
    assert_eq!(invalid_result.error_details, vec!["error1", "error2", "error3"]);
    assert_eq!(invalid_result.schema_url, Some("http://example.com/schema.xsd".to_string()));

    let error_result = FileValidationResult::error(
        path.clone(),
        ValidationError::Config("test error".to_string()),
        duration,
    );
    assert!(error_result.status.is_error());
    assert_eq!(
        error_result.status,
        ValidationStatus::Error { message: "Configuration error: test error".to_string() }
    );
    assert_eq!(error_result.error_details, vec!["Configuration error: test error"]);
    assert_eq!(error_result.schema_url, None);

    let skipped_result =
        FileValidationResult::skipped(path, "no schema found".to_string(), duration);
    assert!(skipped_result.status.is_skipped());
    assert_eq!(
        skipped_result.status,
        ValidationStatus::Skipped { reason: "no schema found".to_string() }
    );
    assert_eq!(skipped_result.error_details, vec!["no schema found"]);
    assert_eq!(skipped_result.schema_url, None);
}

fn five_results() -> Vec<FileValidationResult> {
    vec![
        FileValidationResult::valid(
            "valid1.xml".to_string(),
            "schema1.xsd".to_string(),
            Duration::from_millis(100),
        ),
        FileValidationResult::valid(
            "valid2.xml".to_string(),
            "schema1.xsd".to_string(),
            Duration::from_millis(150),
        ),
        FileValidationResult::invalid(
            "invalid1.xml".to_string(),
            "schema2.xsd".to_string(),
            2,
            Duration::from_millis(200),
            vec![],
        ),
        FileValidationResult::error(
            "error1.xml".to_string(),
            ValidationError::Config("test error".to_string()),
            Duration::from_millis(50),
        ),
        FileValidationResult::skipped(
            "skipped1.xml".to_string(),
            "no schema".to_string(),
            Duration::from_millis(25),
        ),
    ]
}

#[test]
fn test_validation_results_aggregation() {
    let aggregated = ValidationResults::aggregate(five_results());

    assert_eq!(aggregated.total_files, 5);
    assert_eq!(aggregated.valid_files, 2);
    assert_eq!(aggregated.invalid_files, 1);
    assert_eq!(aggregated.error_files, 1);
    assert_eq!(aggregated.skipped_files, 1);
    assert_eq!(aggregated.total_duration, Duration::from_millis(525));
    assert_eq!(aggregated.average_duration, Duration::from_millis(105));
    assert_eq!(aggregated.schemas_used.len(), 2);
    assert!(aggregated.schemas_used.contains(&"schema1.xsd".to_string()));
    assert!(aggregated.schemas_used.contains(&"schema2.xsd".to_string()));

    assert!(!aggregated.all_valid());
    assert!(aggregated.has_errors());
    assert_eq!(aggregated.success_rate_per_mille(), 400); // 2/5
}

#[test]
fn test_aggregate_keeps_the_results_and_gives_plain_metrics() {
    let aggregated = ValidationResults::aggregate(five_results());
    assert_eq!(aggregated.file_results, five_results());
    assert_eq!(aggregated.schemas_used, vec!["schema1.xsd", "schema2.xsd"]);
    assert_eq!(
        aggregated.total_files,
        aggregated.valid_files
            + aggregated.invalid_files
            + aggregated.error_files
            + aggregated.skipped_files
    );
    assert_eq!(
        aggregated.performance_metrics,
        PerformanceMetrics {
            total_duration: Duration::from_millis(525),
            discovery_duration: Duration::zero(),
            schema_loading_duration: Duration::zero(),
            validation_duration: Duration::from_millis(525),
            average_time_per_file: Duration::from_millis(105),
            // five files in 0.525 s are 9523.8 files in a thousand seconds
            throughput_files_per_kilosecond: 9523,
            peak_memory_mb: 0,
            cache_hit_rate_per_mille: 0,
            concurrent_validations: 1,
            schema_cache_stats: SchemaCacheStats {
                hits: 0,
                misses: 0,
                schemas_loaded: 2,
                cache_size_bytes: 0,
            },
        }
    );
}

#[test]
fn test_validation_results_empty() {
    let aggregated = ValidationResults::aggregate(Vec::new());

    assert_eq!(aggregated.total_files, 0);
    assert_eq!(aggregated.valid_files, 0);
    assert_eq!(aggregated.success_rate_per_mille(), 0);
    assert!(!aggregated.all_valid());
    assert!(!aggregated.has_errors());
    assert_eq!(aggregated.total_duration, Duration::zero());
    assert_eq!(aggregated.average_duration, Duration::zero());
    assert_eq!(aggregated.performance_metrics.throughput_files_per_kilosecond, 0);
    assert!(aggregated.schemas_used.is_empty());
}

#[test]
fn test_validation_results_all_valid() {
    let results = vec![
        FileValidationResult::valid(
            "valid1.xml".to_string(),
            "schema.xsd".to_string(),
            Duration::from_millis(100),
        ),
        FileValidationResult::valid(
            "valid2.xml".to_string(),
            "schema.xsd".to_string(),
            Duration::from_millis(150),
        ),
    ];

    let aggregated = ValidationResults::aggregate(results);

    assert!(aggregated.all_valid());
    assert!(!aggregated.has_errors());
    assert_eq!(aggregated.success_rate_per_mille(), 1000);
}

#[test]
fn test_the_time_of_a_run_stops_at_the_largest_number() {
    let long = |name: &str| {
        FileValidationResult::skipped(name.to_string(), "r".to_string(), Duration::from_nanos(u128::MAX - 1))
    };
    let aggregated = ValidationResults::aggregate(vec![long("a"), long("b")]);
    assert_eq!(aggregated.total_duration, Duration::from_nanos(u128::MAX));
    assert_eq!(aggregated.average_duration, Duration::from_nanos(u128::MAX / 2));
    assert_eq!(aggregated.skipped_files, 2);
}

#[test]
fn test_with_metrics_replaces_the_metrics_only() {
    let metrics = PerformanceMetrics {
        total_duration: Duration::from_secs(9),
        discovery_duration: Duration::from_secs(1),
        schema_loading_duration: Duration::from_secs(2),
        validation_duration: Duration::from_secs(3),
        average_time_per_file: Duration::from_secs(4),
        throughput_files_per_kilosecond: 5,
        peak_memory_mb: 6,
        cache_hit_rate_per_mille: 7,
        concurrent_validations: 8,
        schema_cache_stats: SchemaCacheStats::default(),
    };
    let with = ValidationResults::with_metrics(five_results(), metrics);
    let plain = ValidationResults::aggregate(five_results());
    assert_eq!(with.performance_metrics, metrics);
    assert_eq!(with.total_duration, plain.total_duration);
    assert_eq!(with.file_results, plain.file_results);
    assert_eq!(with.schemas_used, plain.schemas_used);
    assert_eq!(with.valid_files, 2);
}

#[test]
fn test_rates() {
    assert_eq!(compute_per_mille(0, 0), 0);
    assert_eq!(compute_per_mille(1, 3), 333);
    assert_eq!(compute_per_mille(2, 3), 667);
    assert_eq!(compute_per_mille(1, 2000), 1); // a half rounds up
    assert_eq!(compute_per_mille(1, 2001), 0);
    assert_eq!(compute_per_mille(usize::MAX, usize::MAX), 1000);
    assert_eq!(compute_throughput(0, Duration::from_secs(1)), 0);
    assert_eq!(compute_throughput(7, Duration::zero()), 0);
    assert_eq!(compute_throughput(1, Duration::from_secs(1)), 1000);
    assert_eq!(compute_throughput(1, Duration::from_secs(3)), 333);
    assert_eq!(compute_throughput(1000, Duration::from_millis(1)), 1_000_000_000);
    assert_eq!(compute_mean(Duration::from_secs(1), 0), Duration::zero());
    assert_eq!(compute_mean(Duration::from_nanos(10), 3), Duration::from_nanos(3));
}

#[test]
fn test_validation_config_default() {
    let config = ValidationConfig::default();

    assert!(config.max_concurrent_validations > 0);
    assert!(config.validation_timeout > Duration::zero());
    assert_eq!(config.validation_timeout, Duration::from_secs(30));
    assert!(!config.fail_fast);
    assert!(!config.show_progress);
    assert!(config.collect_metrics);
}
