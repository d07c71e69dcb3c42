//! The outcome of validating one file, and the summary of a run.

use crate::decimal::{signed_decimal, write_signed_decimal};
use crate::duration::Duration;
use crate::error::ValidationError;
use crate::libxml2::ValidationResult;
use crate::text::{concat2, string_of};
use vstd::prelude::*;
use vstd::std_specs::convert::FromSpecImpl;

verus! {

/// How a run of validations is bounded.
#[derive(Clone, Copy, Debug, PartialEq, Eq, Structural)]
pub struct ValidationConfig {
    /// How many validations may run at the same time; at least one.
    pub max_concurrent_validations: usize,
    /// How long the work on one file may take.
    pub validation_timeout: Duration,
    /// Whether the first outcome that is not `Valid` stops the scheduling of
    /// further files.
    pub fail_fast: bool,
    /// Whether progress is reported.
    pub show_progress: bool,
    /// Whether the memory peak is probed.
    pub collect_metrics: bool,
}

/// `num_cpus::get`: the number of logical processors the machine offers to
/// this process. It depends on the machine; the crate promises that it is at
/// least one.
#[verifier::external_body]
fn logical_cpus() -> (n: usize)
    ensures
        n >= 1,
{
    num_cpus::get()
}

impl Default for ValidationConfig {
    /// One validation per logical processor, thirty seconds per file, no fail-fast, no progress, metrics collected.
    fn default() -> (c: ValidationConfig)
        ensures
            c.max_concurrent_validations >= 1,
            c.validation_timeout@ == 30 * crate::duration::NANOS_PER_SEC,
            !c.fail_fast,
            !c.show_progress,
            c.collect_metrics,
    {
        ValidationConfig {
            max_concurrent_validations: logical_cpus(),
            validation_timeout: Duration::from_secs(30),
            fail_fast: false,
            show_progress: false,
            collect_metrics: true,
        }
    }
}

/// The four kinds of outcome.
#[derive(Clone, Copy, Debug, PartialEq, Eq, Structural)]
pub enum StatusKind {
    Valid,
    Invalid,
    Error,
    Skipped,
}

/// The outcome of the work on one file.
#[derive(Clone, Debug, PartialEq, Eq)]
pub enum ValidationStatus {
    /// The file conforms to its schema.
    Valid,
    /// The file breaks its schema in `error_count` places.
    Invalid { error_count: i32 },
    /// The file could not be judged.
    Error { message: String },
    /// No engine work was done on the file.
    Skipped { reason: String },
}

impl ValidationStatus {
    /// Which of the four kinds the outcome is.
    pub open spec fn kind(&self) -> StatusKind {
        match self {
            ValidationStatus::Valid => StatusKind::Valid,
            ValidationStatus::Invalid { .. } => StatusKind::Invalid,
            ValidationStatus::Error { .. } => StatusKind::Error,
            ValidationStatus::Skipped { .. } => StatusKind::Skipped,
        }
    }

    /// Whether the file conforms.
    pub fn is_valid(&self) -> (b: bool)
        ensures
            b == (self is Valid),
    {
        matches!(self, ValidationStatus::Valid)
    }

    /// Whether the file breaks its schema.
    pub fn is_invalid(&self) -> (b: bool)
        ensures
            b == (self is Invalid),
    {
        matches!(self, ValidationStatus::Invalid { .. })
    }

    /// Whether the file could not be judged.
    pub fn is_error(&self) -> (b: bool)
        ensures
            b == (self is Error),
    {
        matches!(self, ValidationStatus::Error { .. })
    }

    /// Whether the file was skipped.
    pub fn is_skipped(&self) -> (b: bool)
        ensures
            b == (self is Skipped),
    {
        matches!(self, ValidationStatus::Skipped { .. })
    }
}

/// The message of the outcome that stands for an internal error of the
/// engine with the given code.
pub open spec fn internal_error_message(code: int) -> Seq<char> {
    "LibXML2 internal error: "@ + signed_decimal(code)
}

impl From<ValidationResult> for ValidationStatus {
    /// The outcome that an engine verdict stands for. The messages of an
    /// invalid document are not part of the status.
    fn from(result: ValidationResult) -> (s: ValidationStatus)
        ensures
            match result {
                ValidationResult::Valid => s is Valid,
                ValidationResult::Invalid { error_count, .. } => s == (ValidationStatus::Invalid {
                    error_count,
                }),
                ValidationResult::InternalError { code } => s matches ValidationStatus::Error {
                    message,
                } && message@ == internal_error_message(code as int),
            },
    {
        match result {
            ValidationResult::Valid => ValidationStatus::Valid,
            ValidationResult::Invalid { error_count, errors } => ValidationStatus::Invalid {
                error_count,
            },
            ValidationResult::InternalError { code } => {
                let number = string_of(&write_signed_decimal(code as i64));
                ValidationStatus::Error {
                    message: concat2("LibXML2 internal error: ", number.as_str()),
                }
            },
        }
    }
}

impl FromSpecImpl<ValidationResult> for ValidationStatus {
    open spec fn obeys_from_spec() -> bool {
        false
    }

    open spec fn from_spec(result: ValidationResult) -> ValidationStatus {
        ValidationStatus::Valid
    }
}

/// What became of one file.
#[derive(Clone, Debug, PartialEq, Eq)]
pub struct FileValidationResult {
    /// The file.
    pub path: String,
    /// The outcome.
    pub status: ValidationStatus,
    /// The schema the file was held against: present for `Valid` and
    /// `Invalid`, absent otherwise.
    pub schema_url: Option<String>,
    /// How long the work on the file took.
    pub duration: Duration,
    /// What there is to report beyond the status.
    pub error_details: Vec<String>,
}

impl FileValidationResult {
    /// The schema, as text.
    pub open spec fn schema(&self) -> Option<Seq<char>> {
        match self.schema_url {
            Some(u) => Some(u@),
            None => None,
        }
    }

    /// The details, as texts.
    pub open spec fn details(&self) -> Seq<Seq<char>> {
        self.error_details@.map_values(|d: String| d@)
    }

    /// Whether the schema is named exactly where the status asks for it.
    pub open spec fn well_formed(&self) -> bool {
        self.schema_url is Some <==> (self.status is Valid || self.status is Invalid)
    }

    /// Whether this is the result for the file `path` that conforms to the
    /// schema `url`.
    pub open spec fn reports_valid(&self, path: Seq<char>, url: Seq<char>, took: Duration) -> bool {
        &&& self.path@ == path
        &&& self.status is Valid
        &&& self.schema() == Some(url)
        &&& self.duration == took
        &&& self.error_details@.len() == 0
    }

    /// Whether this is the result for the file `path` that breaks the schema
    /// `url` in `count` places, described by `errors`.
    pub open spec fn reports_invalid(
        &self,
        path: Seq<char>,
        url: Seq<char>,
        count: i32,
        errors: Seq<String>,
        took: Duration,
    ) -> bool {
        &&& self.path@ == path
        &&& self.status == (ValidationStatus::Invalid { error_count: count })
        &&& self.schema() == Some(url)
        &&& self.duration == took
        &&& self.error_details@ == errors
    }

    /// Whether this is the result for the file `path` that could not be
    /// judged, for the reason `message`.
    pub open spec fn reports_error(&self, path: Seq<char>, message: Seq<char>, took: Duration) -> bool {
        &&& self.path@ == path
        &&& self.status matches ValidationStatus::Error { message: m } && m@ == message
        &&& self.schema_url is None
        &&& self.duration == took
        &&& self.details() == seq![message]
    }

    /// Whether this is the result for the file `path` that was skipped, for
    /// the reason `reason`.
    pub open spec fn reports_skip(&self, path: Seq<char>, reason: Seq<char>, took: Duration) -> bool {
        &&& self.path@ == path
        &&& self.status matches ValidationStatus::Skipped { reason: why } && why@ == reason
        &&& self.schema_url is None
        &&& self.duration == took
        &&& self.details() == seq![reason]
    }

    /// The result for a file that conforms to the schema `schema_url`.
    pub fn valid(path: String, schema_url: String, duration: Duration) -> (r: FileValidationResult)
        ensures
            r.path == path,
            r.schema_url == Some(schema_url),
            r.reports_valid(path@, schema_url@, duration),
            r.well_formed(),
    {
        FileValidationResult {
            path,
            status: ValidationStatus::Valid,
            schema_url: Some(schema_url),
            duration,
            error_details: Vec::new(),
        }
    }

    /// The result for a file that breaks the schema `schema_url`.
    pub fn invalid(
        path: String,
        schema_url: String,
        error_count: i32,
        duration: Duration,
        error_details: Vec<String>,
    ) -> (r: FileValidationResult)
        ensures
            r.path == path,
            r.schema_url == Some(schema_url),
            r.reports_invalid(path@, schema_url@, error_count, error_details@, duration),
            r.well_formed(),
    {
        FileValidationResult {
            path,
            status: ValidationStatus::Invalid { error_count },
            schema_url: Some(schema_url),
            duration,
            error_details,
        }
    }

    /// The result for a file that could not be judged: the status and the
    /// one detail both carry the text of the error.
    pub fn error(path: String, error: ValidationError, duration: Duration) -> (r:
        FileValidationResult)
        ensures
            r.path == path,
            r.reports_error(path@, error.display(), duration),
            r.well_formed(),
    {
        let message = error.to_string();
        let mut error_details: Vec<String> = Vec::new();
        error_details.push(message.clone());
        let r = FileValidationResult {
            path,
            status: ValidationStatus::Error { message },
            schema_url: None,
            duration,
            error_details,
        };
        assert(r.details() =~= seq![error.display()]);
        r
    }

    /// The result for a file that was skipped: the status and the one detail
    /// both carry the reason.
    pub fn skipped(path: String, reason: String, duration: Duration) -> (r: FileValidationResult)
        ensures
            r.path == path,
            r.reports_skip(path@, reason@, duration),
            r.well_formed(),
    {
        let mut error_details: Vec<String> = Vec::new();
        error_details.push(reason.clone());
        let r = FileValidationResult {
            path,
            status: ValidationStatus::Skipped { reason },
            schema_url: None,
            duration,
            error_details,
        };
        assert(r.details() =~= seq![reason@]);
        r
    }
}

/// The phases of a run.
#[derive(Clone, Copy, Debug, PartialEq, Eq, Structural)]
pub enum ValidationPhase {
    /// The files are being found.
    Discovery,
    /// The marker between discovery and validation; the schemas themselves
    /// are loaded when the first file that names them is worked on.
    SchemaLoading,
    /// The files are being validated.
    Validation,
    /// The outcomes are being added up.
    Aggregation,
    /// The run is over.
    Complete,
}

/// A report of how far a run has come.
#[derive(Clone, Debug, PartialEq, Eq)]
pub struct ValidationProgress {
    /// The file whose outcome has just arrived, if the report is about one.
    pub current_file: Option<String>,
    /// How many files have an outcome.
    pub completed: usize,
    /// How many files there are.
    pub total: usize,
    /// The phase the run is in.
    pub phase: ValidationPhase,
}

/// What the schema caches held when the run ended.
#[derive(Clone, Copy, Debug, PartialEq, Eq, Structural)]
pub struct SchemaCacheStats {
    pub hits: usize,
    pub misses: usize,
    pub schemas_loaded: usize,
    pub cache_size_bytes: u64,
}

impl Default for SchemaCacheStats {
    fn default() -> (s: SchemaCacheStats)
        ensures
            s == (SchemaCacheStats { hits: 0, misses: 0, schemas_loaded: 0, cache_size_bytes: 0 }),
    {
        SchemaCacheStats { hits: 0, misses: 0, schemas_loaded: 0, cache_size_bytes: 0 }
    }
}

/// The timings of a run. Rates are kept as whole numbers: the throughput in
/// files per thousand seconds, the cache hit rate in thousandths.
#[derive(Clone, Copy, Debug, PartialEq, Eq, Structural)]
pub struct PerformanceMetrics {
    pub total_duration: Duration,
    pub discovery_duration: Duration,
    pub schema_loading_duration: Duration,
    pub validation_duration: Duration,
    pub average_time_per_file: Duration,
    /// Files per thousand seconds, rounded down; zero for a run of no length.
    pub throughput_files_per_kilosecond: u128,
    pub peak_memory_mb: u64,
    /// Thousandths of the lookups that were answered from a cache.
    pub cache_hit_rate_per_mille: u32,
    pub concurrent_validations: usize,
    pub schema_cache_stats: SchemaCacheStats,
}

/// How many files per thousand seconds `files` files in `span` come to,
/// rounded down; zero where the span is empty.
pub open spec fn throughput_per_kilosecond(files: nat, span: nat) -> nat {
    if span == 0 {
        0
    } else {
        (files * 1_000_000_000_000) / span
    }
}

/// The mean of `total` over `count` shares, rounded down; zero for no share.
pub open spec fn mean_span(total: nat, count: nat) -> nat {
    if count == 0 {
        0
    } else {
        total / count
    }
}

/// How many files per thousand seconds `files` files in `span` come to.
pub fn compute_throughput(files: usize, span: Duration) -> (r: u128)
    ensures
        r == throughput_per_kilosecond(files as nat, span@),
{
    if span.nanos == 0 {
        0
    } else {
        assert(files * 1_000_000_000_000 <= u128::MAX) by (nonlinear_arith)
            requires
                files <= u64::MAX,
        ;
        (files as u128 * 1_000_000_000_000) / span.nanos
    }
}

/// The mean of `total` over `count` shares.
pub fn compute_mean(total: Duration, count: usize) -> (r: Duration)
    ensures
        r@ == mean_span(total@, count as nat),
{
    if count == 0 {
        Duration::zero()
    } else {
        Duration::from_nanos(total.nanos / (count as u128))
    }
}

// ---------------------------------------------------------------------------
// The summary of a run
// ---------------------------------------------------------------------------

/// How many of the results are of the kind `kind`.
pub open spec fn count_kind(results: Seq<FileValidationResult>, kind: StatusKind) -> nat
    decreases results.len(),
{
    if results.len() == 0 {
        0
    } else {
        count_kind(results.drop_last(), kind) + if results.last().status.kind() == kind {
            1nat
        } else {
            0nat
        }
    }
}

/// The time that the results took, all together, in nanoseconds.
pub open spec fn total_nanos(results: Seq<FileValidationResult>) -> nat
    decreases results.len(),
{
    if results.len() == 0 {
        0
    } else {
        total_nanos(results.drop_last()) + results.last().duration@
    }
}

/// The time that the results took, as far as the machine can count: a sum
/// beyond the largest number of nanoseconds is told as that number.
pub open spec fn counted_nanos(results: Seq<FileValidationResult>) -> nat {
    if total_nanos(results) <= u128::MAX {
        total_nanos(results)
    } else {
        u128::MAX as nat
    }
}

/// Whether one of the results was held against the schema `url`.
pub open spec fn uses_schema(results: Seq<FileValidationResult>, url: Seq<char>) -> bool {
    exists|i: int| 0 <= i < results.len() && #[trigger] results[i].schema() == Some(url)
}

/// Whether the text `t` is one of `list`.
pub open spec fn lists(list: Seq<String>, t: Seq<char>) -> bool {
    exists|i: int| 0 <= i < list.len() && (#[trigger] list[i])@ == t
}

/// Whether no text stands twice in `list`.
pub open spec fn distinct(list: Seq<String>) -> bool {
    forall|i: int, j: int| 0 <= i < j < list.len() ==> (#[trigger] list[i])@ != (#[trigger] list[j])@
}

/// Every result is of exactly one kind: the four counts add up to the number
/// of results.
pub proof fn lemma_counts_cover(results: Seq<FileValidationResult>)
    ensures
        count_kind(results, StatusKind::Valid) + count_kind(results, StatusKind::Invalid)
            + count_kind(results, StatusKind::Error) + count_kind(results, StatusKind::Skipped)
            == results.len(),
    decreases results.len(),
{
    if results.len() > 0 {
        lemma_counts_cover(results.drop_last());
    }
}

/// No count is larger than the number of results.
pub proof fn lemma_count_bound(results: Seq<FileValidationResult>, kind: StatusKind)
    ensures
        count_kind(results, kind) <= results.len(),
    decreases results.len(),
{
    if results.len() > 0 {
        lemma_count_bound(results.drop_last(), kind);
    }
}

/// The results of a run, added up.
#[derive(Clone, Debug, PartialEq, Eq)]
pub struct ValidationResults {
    pub total_files: usize,
    pub valid_files: usize,
    pub invalid_files: usize,
    pub error_files: usize,
    pub skipped_files: usize,
    /// The time the files took, one after the other.
    pub total_duration: Duration,
    /// The mean time per file.
    pub average_duration: Duration,
    /// The results, in the order they were handed in.
    pub file_results: Vec<FileValidationResult>,
    /// The schemas that files were held against, each once, in the order in
    /// which they first occur.
    pub schemas_used: Vec<String>,
    pub performance_metrics: PerformanceMetrics,
}

/// Whether the text of `s` is one of `list`.
fn is_listed(list: &Vec<String>, s: &String) -> (b: bool)
    ensures
        b == lists(list@, s@),
{
    let mut i: usize = 0;
    while i < list.len()
        invariant
            i <= list.len(),
            forall|k: int| 0 <= k < i ==> (#[trigger] list@[k])@ != s@,
        decreases list.len() - i,
    {
        if list[i] == *s {
            return true;
        }
        i = i + 1;
    }
    false
}

/// Puts `url` on the list unless it stands there already.
fn note_schema(list: &mut Vec<String>, url: &String)
    requires
        distinct(old(list)@),
    ensures
        distinct(final(list)@),
        forall|u: Seq<char>| lists(final(list)@, u) <==> lists(old(list)@, u) || u == url@,
{
    let ghost before = list@;
    if !is_listed(list, url) {
        list.push(url.clone());
        proof {
            let n = before.len() as int;
            assert(list@[n]@ == url@);
            assert forall|a: int, b: int| 0 <= a < b < list@.len() implies (#[trigger] list@[a])@
                != (#[trigger] list@[b])@ by {
                assert(list@[a] == before[a]);
                if b < n {
                    assert(list@[b] == before[b]);
                }
            }
            assert forall|u: Seq<char>| lists(list@, u) <==> lists(before, u) || u == url@ by {
                if lists(list@, u) {
                    let k = choose|k: int| 0 <= k < list@.len() && (#[trigger] list@[k])@ == u;
                    if k < n {
                        assert(list@[k] == before[k]);
                    }
                }
                if lists(before, u) {
                    let k = choose|k: int| 0 <= k < before.len() && (#[trigger] before[k])@ == u;
                    assert(list@[k] == before[k]);
                }
            }
        }
    }
}

impl ValidationResults {
    /// Whether the counts, the times and the schemas are those of the
    /// results held.
    pub open spec fn summarizes(&self) -> bool {
        let results = self.file_results@;
        &&& self.total_files == results.len()
        &&& self.valid_files == count_kind(results, StatusKind::Valid)
        &&& self.invalid_files == count_kind(results, StatusKind::Invalid)
        &&& self.error_files == count_kind(results, StatusKind::Error)
        &&& self.skipped_files == count_kind(results, StatusKind::Skipped)
        &&& self.total_files == self.valid_files + self.invalid_files + self.error_files
            + self.skipped_files
        &&& self.total_duration@ == counted_nanos(results)
        &&& self.average_duration@ == mean_span(counted_nanos(results), results.len())
        &&& distinct(self.schemas_used@)
        &&& forall|u: Seq<char>| lists(self.schemas_used@, u) <==> uses_schema(results, u)
    }

    /// The metrics of a run of which nothing but the results is known: the
    /// whole time counts as validation, one validation ran at a time, and
    /// as many schemas were loaded as were used.
    pub open spec fn plain_metrics(&self) -> PerformanceMetrics {
        PerformanceMetrics {
            total_duration: self.total_duration,
            discovery_duration: Duration { nanos: 0 },
            schema_loading_duration: Duration { nanos: 0 },
            validation_duration: self.total_duration,
            average_time_per_file: self.average_duration,
            throughput_files_per_kilosecond: throughput_per_kilosecond(
                self.total_files as nat,
                self.total_duration@,
            ) as u128,
            peak_memory_mb: 0,
            cache_hit_rate_per_mille: 0,
            concurrent_validations: 1,
            schema_cache_stats: SchemaCacheStats {
                hits: 0,
                misses: 0,
                schemas_loaded: self.schemas_used@.len() as usize,
                cache_size_bytes: 0,
            },
        }
    }

    /// Adds the results up: one count per kind of outcome, the time taken
    /// and its mean, and the schemas used.
    pub fn aggregate(file_results: Vec<FileValidationResult>) -> (r: ValidationResults)
        ensures
            r.file_results == file_results,
            r.summarizes(),
            r.performance_metrics == r.plain_metrics(),
    {
        let total_files = file_results.len();
        let mut valid_files: usize = 0;
        let mut invalid_files: usize = 0;
        let mut error_files: usize = 0;
        let mut skipped_files: usize = 0;
        let mut total: u128 = 0;
        let mut schemas_used: Vec<String> = Vec::new();
        let ghost results = file_results@;

        let mut i: usize = 0;
        while i < file_results.len()
            invariant
                i <= file_results.len(),
                results == file_results@,
                valid_files == count_kind(results.take(i as int), StatusKind::Valid),
                invalid_files == count_kind(results.take(i as int), StatusKind::Invalid),
                error_files == count_kind(results.take(i as int), StatusKind::Error),
                skipped_files == count_kind(results.take(i as int), StatusKind::Skipped),
                total == counted_nanos(results.take(i as int)),
                distinct(schemas_used@),
                forall|u: Seq<char>|
                    lists(schemas_used@, u) <==> uses_schema(results.take(i as int), u),
            decreases file_results.len() - i,
        {
            let ghost before = results.take(i as int);
            let ghost upto = results.take(i + 1);
            let result = &file_results[i];
            proof {
                assert(upto.drop_last() =~= before);
                assert(upto.last() == *result);
                lemma_count_bound(upto, StatusKind::Valid);
                lemma_count_bound(upto, StatusKind::Invalid);
                lemma_count_bound(upto, StatusKind::Error);
                lemma_count_bound(upto, StatusKind::Skipped);
            }
            match result.status {
                ValidationStatus::Valid => {
                    valid_files = valid_files + 1;
                },
                ValidationStatus::Invalid { .. } => {
                    invalid_files = invalid_files + 1;
                },
                ValidationStatus::Error { .. } => {
                    error_files = error_files + 1;
                },
                ValidationStatus::Skipped { .. } => {
                    skipped_files = skipped_files + 1;
                },
            }
            total = total.saturating_add(result.duration.nanos);

            let ghost listed_before = schemas_used@;
            match &result.schema_url {
                Some(url) => {
                    note_schema(&mut schemas_used, url);
                },
                None => {},
            }
            proof {
                assert forall|u: Seq<char>| lists(schemas_used@, u) <==> uses_schema(
                    upto,
                    u,
                ) by {
                    let here = result.schema() == Some(u);
                    assert(lists(schemas_used@, u) <==> lists(listed_before, u) || here);
                    if uses_schema(before, u) {
                        let w = choose|w: int|
                            0 <= w < before.len() && #[trigger] before[w].schema() == Some(u);
                        assert(upto[w] == before[w]);
                    }
                    if here {
                        assert(upto[i as int].schema() == Some(u));
                    }
                    if uses_schema(upto, u) {
                        let w = choose|w: int|
                            0 <= w < upto.len() && #[trigger] upto[w].schema() == Some(u);
                        if w < i {
                            assert(before[w] == upto[w]);
                        }
                    }
                }
            }
            i = i + 1;
        }
        proof {
            assert(results.take(file_results.len() as int) =~= results);
            lemma_counts_cover(results);
        }

        let total_duration = Duration::from_nanos(total);
        let average_duration = compute_mean(total_duration, total_files);
        let performance_metrics = PerformanceMetrics {
            total_duration,
            discovery_duration: Duration::zero(),
            schema_loading_duration: Duration::zero(),
            validation_duration: total_duration,
            average_time_per_file: average_duration,
            throughput_files_per_kilosecond: compute_throughput(total_files, total_duration),
            peak_memory_mb: 0,
            cache_hit_rate_per_mille: 0,
            concurrent_validations: 1,
            schema_cache_stats: SchemaCacheStats {
                hits: 0,
                misses: 0,
                schemas_loaded: schemas_used.len(),
                cache_size_bytes: 0,
            },
        };

        ValidationResults {
            total_files,
            valid_files,
            invalid_files,
            error_files,
            skipped_files,
            total_duration,
            average_duration,
            file_results,
            schemas_used,
            performance_metrics,
        }
    }

    /// The summary of the results, with the metrics given in place of the
    /// plain ones.
    pub fn with_metrics(
        file_results: Vec<FileValidationResult>,
        performance_metrics: PerformanceMetrics,
    ) -> (r: ValidationResults)
        ensures
            r.file_results == file_results,
            r.summarizes(),
            r.performance_metrics == performance_metrics,
    {
        let mut results = ValidationResults::aggregate(file_results);
        results.performance_metrics = performance_metrics;
        results
    }

    /// Whether there is at least one file and every file is valid.
    pub fn all_valid(&self) -> (b: bool)
        ensures
            b == (self.valid_files == self.total_files && self.total_files > 0),
    {
        self.valid_files == self.total_files && self.total_files > 0
    }

    /// Whether a file is invalid or could not be judged.
    pub fn has_errors(&self) -> (b: bool)
        ensures
            b == (self.error_files > 0 || self.invalid_files > 0),
    {
        self.error_files > 0 || self.invalid_files > 0
    }

    /// The share of valid files in thousandths, rounded to the nearest
    /// (halves up); zero where there is no file.
    pub fn success_rate_per_mille(&self) -> (r: u128)
        ensures
            r == per_mille(self.valid_files as nat, self.total_files as nat),
    {
        compute_per_mille(self.valid_files, self.total_files)
    }
}

/// The share of `part` in `whole` in thousandths, rounded to the nearest
/// (halves up); zero where `whole` is zero.
pub open spec fn per_mille(part: nat, whole: nat) -> nat {
    if whole == 0 {
        0
    } else {
        (part * 2000 + whole) / (2 * whole)
    }
}

/// The share of `part` in `whole` in thousandths.
pub fn compute_per_mille(part: usize, whole: usize) -> (r: u128)
    ensures
        r == per_mille(part as nat, whole as nat),
{
    if whole == 0 {
        0
    } else {
        let p: u128 = part as u128;
        let w: u128 = whole as u128;
        assert(p * 2000 + w <= u128::MAX) by (nonlinear_arith)
            requires
                p <= u64::MAX,
                w <= u64::MAX,
        ;
        (p * 2000 + w) / (2 * w)
    }
}

} // verus!
