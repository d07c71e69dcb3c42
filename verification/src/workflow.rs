//! A run from end to end: discovery, validation, the summary.

use crate::cache::ComprehensiveCacheStats;
use crate::duration::Duration;
use crate::error::ValidationError;
use crate::decimal::{parse_unsigned_up_to, read_unsigned};
use crate::pattern::regex_accepts;
use crate::schema_loader::{no_namespace_pattern, schema_location_pattern, SchemaExtractor};
use crate::text::{
    chars_of, has_prefix, second_word, second_word_of, split, split_on, starts_with, texts,
};
use crate::validator::{
    compute_mean, compute_throughput, mean_span, throughput_per_kilosecond, FileValidationResult,
    PerformanceMetrics, SchemaCacheStats, ValidationConfig, ValidationPhase, ValidationProgress,
    ValidationResults,
};
use vstd::prelude::*;

verus! {

/// How far a run has come.
#[derive(Clone, Copy, Debug, PartialEq, Eq, Structural)]
pub enum RunState {
    /// Nothing has been done yet.
    Start,
    /// The files are being found.
    Discovering,
    /// The files are being validated; finding them took `discovery`.
    Validating { discovery: Duration },
    /// The run is over.
    Finished,
}

/// What a run is told.
#[derive(Debug, PartialEq, Eq)]
pub enum RunEvent {
    /// The run is to begin.
    Begin,
    /// The discovery ended after `took`: with the files, or with a failure.
    Discovered { files: Result<Vec<String>, ValidationError>, took: Duration, since_start: Duration },
    /// The pool ended after `took` and handed in the results. `cache` is the
    /// state of the schema cache, if it could be read; `peak_memory_mb` is
    /// the memory peak of the process, if it could be probed.
    Validated {
        results: Vec<FileValidationResult>,
        took: Duration,
        since_start: Duration,
        cache: Option<ComprehensiveCacheStats>,
        peak_memory_mb: Option<u64>,
    },
}

/// What a run asks for next. Each action brings the reports of progress
/// that are due with it.
#[derive(Debug, PartialEq, Eq)]
pub enum RunAction {
    /// Find the files.
    Discover { progress: ValidationProgress },
    /// Validate the files.
    Validate { files: Vec<String>, progress: ValidationProgress },
    /// The run is over: here is its summary.
    Finish { results: ValidationResults, progress: Vec<ValidationProgress> },
    /// The run failed.
    Fail(ValidationError),
}

/// Whether `event` is what `state` waits for.
pub open spec fn due(state: RunState, event: RunEvent) -> bool {
    match (state, event) {
        (RunState::Start, RunEvent::Begin) => true,
        (RunState::Discovering, RunEvent::Discovered { .. }) => true,
        (RunState::Validating { .. }, RunEvent::Validated { .. }) => true,
        _ => false,
    }
}

/// Whether `progress` reports the phase `phase` with `completed` of `total`
/// files done and no file named.
pub open spec fn reports(
    progress: ValidationProgress,
    phase: ValidationPhase,
    completed: nat,
    total: nat,
) -> bool {
    &&& progress.phase == phase
    &&& progress.completed == completed
    &&& progress.total == total
    &&& progress.current_file is None
}

/// What the schema cache held, as the metrics tell it: the entries of the
/// memory tier count as the schemas loaded, the size of the disk tier as
/// the size of the cache; hits and misses are not counted. A cache that
/// could not be read is told as empty.
pub open spec fn cache_summary(cache: Option<ComprehensiveCacheStats>) -> SchemaCacheStats {
    match cache {
        Some(stats) => SchemaCacheStats {
            hits: 0,
            misses: 0,
            schemas_loaded: stats.memory.entry_count as usize,
            cache_size_bytes: stats.disk.total_size,
        },
        None => SchemaCacheStats { hits: 0, misses: 0, schemas_loaded: 0, cache_size_bytes: 0 },
    }
}

/// The metrics of a run under `config` that found its files in `discovery`,
/// validated `files` of them in `validation` and took `total` in all.
pub open spec fn run_metrics(
    config: ValidationConfig,
    discovery: Duration,
    validation: Duration,
    total: Duration,
    files: nat,
    cache: Option<ComprehensiveCacheStats>,
    peak_memory_mb: Option<u64>,
) -> PerformanceMetrics {
    PerformanceMetrics {
        total_duration: total,
        discovery_duration: discovery,
        schema_loading_duration: Duration { nanos: 0 },
        validation_duration: validation,
        average_time_per_file: Duration { nanos: mean_span(validation@, files) as u128 },
        throughput_files_per_kilosecond: throughput_per_kilosecond(files, total@) as u128,
        peak_memory_mb: if config.collect_metrics {
            match peak_memory_mb {
                Some(mb) => mb,
                None => 0,
            }
        } else {
            0
        },
        cache_hit_rate_per_mille: 0,
        concurrent_validations: config.max_concurrent_validations,
        schema_cache_stats: cache_summary(cache),
    }
}

/// The memory peak that one line of the process status tells, in
/// megabytes: the line begins with `VmPeak:`, and its second word is a
/// number of kilobytes.
pub open spec fn peak_of_line(line: Seq<char>) -> Option<nat> {
    if starts_with(line, "VmPeak:"@) {
        match parse_unsigned_up_to(second_word(line), u64::MAX as nat) {
            Some(kilobytes) => Some(kilobytes / 1024),
            None => None,
        }
    } else {
        None
    }
}

/// The memory peak that the first of the lines that tell one tells; zero
/// where none does.
pub open spec fn peak_of_lines(lines: Seq<Seq<char>>) -> nat
    decreases lines.len(),
{
    if lines.len() == 0 {
        0
    } else {
        match peak_of_line(lines[0]) {
            Some(megabytes) => megabytes,
            None => peak_of_lines(lines.skip(1)),
        }
    }
}

/// The memory peak of the process in megabytes, as its status tells it;
/// zero where the status tells none. The status is the text that the
/// system keeps for the process, line by line.
pub fn peak_memory_mb(status: &str) -> (mb: u64)
    ensures
        mb == peak_of_lines(split(status@, '\n')),
{
    let lines = split_on(&chars_of(status), '\n');
    let ghost all = texts(lines@);
    let label = chars_of("VmPeak:");
    let mut i: usize = 0;
    assert(all.skip(0) =~= all);
    while i < lines.len()
        invariant
            i <= lines.len(),
            all == texts(lines@),
            all == split(status@, '\n'),
            label@ == "VmPeak:"@,
            peak_of_lines(all) == peak_of_lines(all.skip(i as int)),
        decreases lines.len() - i,
    {
        assert(all.skip(i as int)[0] == lines@[i as int]@);
        assert(all.skip(i as int).skip(1) =~= all.skip(i + 1));
        if has_prefix(&lines[i], &label) {
            match read_unsigned(&second_word_of(&lines[i]), u64::MAX) {
                Some(kilobytes) => {
                    return kilobytes / 1024;
                },
                None => {},
            }
        }
        i = i + 1;
    }
    0
}

/// The code with which a program ends after a run: 1 where the run was
/// fail-fast and not every file was valid, else 2 where a file could not
/// be judged, else 3 where a file was invalid, else 0.
pub open spec fn exit_code_of(results: ValidationResults, fail_fast: bool) -> i32 {
    if fail_fast && (results.error_files > 0 || results.invalid_files > 0) {
        1
    } else if results.error_files > 0 {
        2
    } else if results.invalid_files > 0 {
        3
    } else {
        0
    }
}

/// The code with which a program ends after a run.
pub fn exit_code(results: &ValidationResults, fail_fast: bool) -> (code: i32)
    ensures
        code == exit_code_of(*results, fail_fast),
{
    if results.has_errors() && fail_fast {
        1
    } else if results.error_files > 0 {
        2
    } else if results.invalid_files > 0 {
        3
    } else {
        0
    }
}

/// The engine of a run: its bounds, and the scanner for schema
/// declarations.
#[derive(Clone, Debug)]
pub struct ValidationEngine {
    config: ValidationConfig,
    extractor: SchemaExtractor,
}

impl ValidationEngine {
    /// The bounds of the run.
    pub closed spec fn bounds(&self) -> ValidationConfig {
        self.config
    }

    /// Whether the scanner is in order.
    pub closed spec fn well_formed(&self) -> bool {
        self.extractor.well_formed()
    }

    /// The engine for a run under `config`. It is made exactly when the
    /// scanner for schema declarations can be made.
    pub fn new(config: ValidationConfig) -> (r: Result<ValidationEngine, ValidationError>)
        ensures
            r is Ok <==> regex_accepts(schema_location_pattern()) && regex_accepts(
                no_namespace_pattern(),
            ),
            r matches Ok(engine) ==> engine.bounds() == config && engine.well_formed(),
            r matches Err(e) ==> e is Config,
    {
        match SchemaExtractor::new() {
            Ok(extractor) => Ok(ValidationEngine { config, extractor }),
            Err(e) => Err(e),
        }
    }

    /// The bounds of the run.
    pub fn config(&self) -> (c: &ValidationConfig)
        ensures
            *c == self.bounds(),
    {
        &self.config
    }

    /// The scanner for schema declarations.
    pub fn extractor(&self) -> (e: &SchemaExtractor)
        ensures
            self.well_formed() ==> e.well_formed(),
    {
        &self.extractor
    }

    /// The metrics of a run that found its files in `discovery`, validated
    /// `files` of them in `validation` and took `total` in all.
    pub fn collect_metrics(
        &self,
        discovery: Duration,
        validation: Duration,
        total: Duration,
        files: usize,
        cache: Option<ComprehensiveCacheStats>,
        peak_memory_mb: Option<u64>,
    ) -> (m: PerformanceMetrics)
        ensures
            m == run_metrics(
                self.bounds(),
                discovery,
                validation,
                total,
                files as nat,
                cache,
                peak_memory_mb,
            ),
    {
        let schema_cache_stats = match cache {
            Some(stats) => SchemaCacheStats {
                hits: 0,
                misses: 0,
                schemas_loaded: stats.memory.entry_count as usize,
                cache_size_bytes: stats.disk.total_size,
            },
            None => SchemaCacheStats::default(),
        };
        PerformanceMetrics {
            total_duration: total,
            discovery_duration: discovery,
            schema_loading_duration: Duration::zero(),
            validation_duration: validation,
            average_time_per_file: compute_mean(validation, files),
            throughput_files_per_kilosecond: compute_throughput(files, total),
            peak_memory_mb: if self.config.collect_metrics {
                match peak_memory_mb {
                    Some(mb) => mb,
                    None => 0,
                }
            } else {
                0
            },
            cache_hit_rate_per_mille: 0,
            concurrent_validations: self.config.max_concurrent_validations,
            schema_cache_stats,
        }
    }

    /// Whether `next` and `action` are the run's answer to `event` in the
    /// state `state`.
    pub open spec fn run_result(
        &self,
        state: RunState,
        event: RunEvent,
        next: RunState,
        action: RunAction,
    ) -> bool {
        if !due(state, event) {
            &&& next is Finished
            &&& action matches RunAction::Fail(e)
            &&& e is Concurrency
        } else {
            match (state, event) {
                (_, RunEvent::Begin) => {
                    &&& next is Discovering
                    &&& action matches RunAction::Discover { progress }
                    &&& reports(progress, ValidationPhase::Discovery, 0, 0)
                },
                (_, RunEvent::Discovered { files: Err(e), .. }) => {
                    &&& next is Finished
                    &&& action == RunAction::Fail(e)
                },
                (_, RunEvent::Discovered { files: Ok(found), took, since_start }) => if found@.len()
                    == 0 {
                    &&& next is Finished
                    &&& action matches RunAction::Finish { results, progress }
                    &&& results.file_results@.len() == 0
                    &&& results.summarizes()
                    &&& results.performance_metrics == run_metrics(
                        self.bounds(),
                        took,
                        Duration { nanos: 0 },
                        since_start,
                        0,
                        None,
                        None,
                    )
                    &&& progress@.len() == 0
                } else {
                    &&& next == (RunState::Validating { discovery: took })
                    &&& action matches RunAction::Validate { files, progress }
                    &&& files == found
                    &&& reports(progress, ValidationPhase::SchemaLoading, 0, found@.len())
                },
                (
                    RunState::Validating { discovery },
                    RunEvent::Validated { results: outcomes, took, since_start, cache, peak_memory_mb },
                ) => {
                    &&& next is Finished
                    &&& action matches RunAction::Finish { results, progress }
                    &&& results.file_results == outcomes
                    &&& results.summarizes()
                    &&& results.performance_metrics == run_metrics(
                        self.bounds(),
                        discovery,
                        took,
                        since_start,
                        outcomes@.len(),
                        cache,
                        peak_memory_mb,
                    )
                    &&& progress@.len() == 2
                    &&& reports(
                        progress@[0],
                        ValidationPhase::Aggregation,
                        outcomes@.len(),
                        outcomes@.len(),
                    )
                    &&& reports(
                        progress@[1],
                        ValidationPhase::Complete,
                        outcomes@.len(),
                        outcomes@.len(),
                    )
                },
                // The state waits for no other event.
                _ => true,
            }
        }
    }

    /// One step of a run.
    ///
    /// A run begins with the discovery. A discovery that fails fails the
    /// run; one that finds no file ends it at once, with an empty summary
    /// whose only times are those of the discovery. Else the files are
    /// validated, and what the pool hands in is added up and given the
    /// metrics of the run. An event that the state did not wait for fails
    /// the run with `Concurrency`.
    pub fn run_step(&self, state: RunState, event: RunEvent) -> (r: (RunState, RunAction))
        ensures
            self.run_result(state, event, r.0, r.1),
    {
        match (state, event) {
            (RunState::Start, RunEvent::Begin) => (
                RunState::Discovering,
                RunAction::Discover {
                    progress: ValidationProgress {
                        current_file: None,
                        completed: 0,
                        total: 0,
                        phase: ValidationPhase::Discovery,
                    },
                },
            ),
            (RunState::Discovering, RunEvent::Discovered { files, took, since_start }) => match files {
                Err(e) => (RunState::Finished, RunAction::Fail(e)),
                Ok(found) => {
                    if found.len() == 0 {
                        let metrics = self.collect_metrics(
                            took,
                            Duration::zero(),
                            since_start,
                            0,
                            None,
                            None,
                        );
                        let results = ValidationResults::with_metrics(Vec::new(), metrics);
                        (RunState::Finished, RunAction::Finish { results, progress: Vec::new() })
                    } else {
                        let total = found.len();
                        (
                            RunState::Validating { discovery: took },
                            RunAction::Validate {
                                files: found,
                                progress: ValidationProgress {
                                    current_file: None,
                                    completed: 0,
                                    total,
                                    phase: ValidationPhase::SchemaLoading,
                                },
                            },
                        )
                    }
                },
            },
            (
                RunState::Validating { discovery },
                RunEvent::Validated { results, took, since_start, cache, peak_memory_mb },
            ) => {
                let count = results.len();
                let metrics = self.collect_metrics(
                    discovery,
                    took,
                    since_start,
                    count,
                    cache,
                    peak_memory_mb,
                );
                let summary = ValidationResults::with_metrics(results, metrics);
                let mut progress: Vec<ValidationProgress> = Vec::new();
                progress.push(
                    ValidationProgress {
                        current_file: None,
                        completed: count,
                        total: count,
                        phase: ValidationPhase::Aggregation,
                    },
                );
                progress.push(
                    ValidationProgress {
                        current_file: None,
                        completed: count,
                        total: count,
                        phase: ValidationPhase::Complete,
                    },
                );
                (RunState::Finished, RunAction::Finish { results: summary, progress })
            },
            _ => (
                RunState::Finished,
                RunAction::Fail(
                    ValidationError::Concurrency {
                        details: "the run was told what it did not ask for".to_owned(),
                    },
                ),
            ),
        }
    }
}

} // verus!
