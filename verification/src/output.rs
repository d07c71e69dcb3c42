//! The results of a run, written for a reader, for a program, or in one
//! line.

use crate::cache::{current_time, Timestamp};
use crate::cli::OutputFormat;
use crate::decimal::{decimal, digit_char, signed_decimal, write_decimal, write_signed_decimal};
use crate::duration::{Duration, NANOS_PER_MILLI, NANOS_PER_SEC};
use crate::error_reporter::{compute_percentage, is_stamp, make_stamp, percentage, VerbosityLevel};
use crate::paths::final_component;
use crate::text::{chars_of, concat2, find_last, push_all, push_str, slice_of, string_of};
use crate::validator::{
    per_mille, FileValidationResult, PerformanceMetrics, SchemaCacheStats, ValidationResults,
    ValidationStatus,
};
use vstd::prelude::*;

verus! {

/// Why the results could not be written.
#[derive(Clone, Debug, PartialEq, Eq)]
pub enum OutputError {
    SerializationError(String),
    WriteError(String),
    FormatError(String),
}

impl OutputError {
    /// The text the error is reported with.
    pub open spec fn display(&self) -> Seq<char> {
        match self {
            OutputError::SerializationError(m) => "Serialization error: "@ + m@,
            OutputError::WriteError(m) => "Write error: "@ + m@,
            OutputError::FormatError(m) => "Format error: "@ + m@,
        }
    }

    /// The text the error is reported with.
    pub fn to_string(&self) -> (r: String)
        ensures
            r@ == self.display(),
    {
        match self {
            OutputError::SerializationError(m) => concat2("Serialization error: ", m.as_str()),
            OutputError::WriteError(m) => concat2("Write error: ", m.as_str()),
            OutputError::FormatError(m) => concat2("Format error: ", m.as_str()),
        }
    }
}

/// A way of writing results.
pub trait OutputFormatter {
    /// The results of a run.
    fn format_results(&self, results: &ValidationResults) -> Result<String, OutputError>;

    /// How far a run has come.
    fn format_progress(&self, current: usize, total: usize, current_file: Option<&String>) -> Result<
        String,
        OutputError,
    >;

    /// The result of one file.
    fn format_file_result(&self, result: &FileValidationResult) -> Result<String, OutputError>;

    /// The numbers of a run.
    fn format_summary(&self, results: &ValidationResults) -> Result<String, OutputError>;
}

// ---------------------------------------------------------------------------
// Numbers with a fraction
// ---------------------------------------------------------------------------

/// The numeral of `value` hundredths, with two digits behind the point.
pub open spec fn hundredths(value: nat) -> Seq<char> {
    decimal(value / 100) + seq!['.', digit_char(((value / 10) % 10) as int), digit_char(
        (value % 10) as int,
    )]
}

/// The numeral of `value` tenths, with one digit behind the point.
pub open spec fn tenths(value: nat) -> Seq<char> {
    decimal(value / 10) + seq!['.', digit_char((value % 10) as int)]
}

/// `value` in units of `unit`, rounded to the nearest, halves up.
pub open spec fn rounded(value: nat, unit: nat) -> nat
    recommends
        unit > 0,
{
    (value + unit / 2) / unit
}

/// The text of a span of time: in whole milliseconds below a second; in
/// seconds with two digits behind the point below a minute; else in whole
/// minutes and in seconds with one digit behind the point. Fractions are
/// rounded to the nearest, halves up.
pub open spec fn duration_text(nanos: nat) -> Seq<char> {
    if nanos < NANOS_PER_SEC {
        decimal(nanos / (NANOS_PER_MILLI as nat)) + "ms"@
    } else if nanos < 60 * NANOS_PER_SEC {
        hundredths(rounded(nanos, 10_000_000)) + "s"@
    } else {
        decimal(nanos / (60 * NANOS_PER_SEC) as nat) + "m"@ + tenths(
            rounded(nanos % ((60 * NANOS_PER_SEC) as nat), 100_000_000),
        ) + "s"@
    }
}

fn digit(d: u128) -> (c: char)
    requires
        d < 10,
    ensures
        c == digit_char(d as int),
{
    let digits = write_decimal(d);
    assert(decimal(d as nat) =~= seq![digit_char(d as int)]);
    digits[0]
}

fn push_hundredths(out: &mut Vec<char>, value: u128)
    ensures
        final(out)@ == old(out)@ + hundredths(value as nat),
{
    push_all(out, &write_decimal(value / 100));
    out.push('.');
    out.push(digit((value / 10) % 10));
    out.push(digit(value % 10));
    assert(out@ =~= old(out)@ + hundredths(value as nat));
}

fn push_tenths(out: &mut Vec<char>, value: u128)
    ensures
        final(out)@ == old(out)@ + tenths(value as nat),
{
    push_all(out, &write_decimal(value / 10));
    out.push('.');
    out.push(digit(value % 10));
    assert(out@ =~= old(out)@ + tenths(value as nat));
}

fn push_decimal(out: &mut Vec<char>, value: u128)
    ensures
        final(out)@ == old(out)@ + decimal(value as nat),
{
    push_all(out, &write_decimal(value));
}

/// `value` in units of `unit`, rounded to the nearest.
fn round_to(value: u128, unit: u128) -> (r: u128)
    requires
        unit >= 2,
    ensures
        r == rounded(value as nat, unit as nat),
{
    let whole = value / unit;
    let rest = value % unit;
    let half = unit / 2;
    assert(whole * unit + rest == value) by (nonlinear_arith)
        requires
            whole == value / unit,
            rest == value % unit,
            unit > 0,
    ;
    assert(whole + 1 <= u128::MAX) by (nonlinear_arith)
        requires
            whole * unit + rest == value,
            unit >= 2,
            rest >= 0,
            value <= u128::MAX,
    ;
    if rest >= unit - half {
        assert((value + half) / (unit as int) == whole + 1) by (nonlinear_arith)
            requires
                whole * unit + rest == value,
                unit - half <= rest < unit,
                0 <= half < unit,
        ;
        whole + 1
    } else {
        assert((value + half) / (unit as int) == whole) by (nonlinear_arith)
            requires
                whole * unit + rest == value,
                0 <= rest < unit - half,
                0 <= half < unit,
        ;
        whole
    }
}

/// The text of the span of time `duration`.
pub fn format_duration(duration: Duration) -> (r: String)
    ensures
        r@ == duration_text(duration@),
{
    let nanos = duration.nanos;
    let mut out: Vec<char> = Vec::new();
    if nanos < NANOS_PER_SEC {
        push_decimal(&mut out, nanos / NANOS_PER_MILLI);
        push_str(&mut out, "ms");
    } else if nanos < 60 * NANOS_PER_SEC {
        push_hundredths(&mut out, round_to(nanos, 10_000_000));
        push_str(&mut out, "s");
    } else {
        push_decimal(&mut out, nanos / (60 * NANOS_PER_SEC));
        push_str(&mut out, "m");
        push_tenths(&mut out, round_to(nanos % (60 * NANOS_PER_SEC), 100_000_000));
        push_str(&mut out, "s");
    }
    assert(out@ =~= duration_text(duration@));
    string_of(&out)
}

// ---------------------------------------------------------------------------
// For a reader
// ---------------------------------------------------------------------------

/// `atty::is` on the standard output: whether it is a terminal. It is a
/// fact of the environment, so nothing is promised of it.
#[verifier::external_body]
fn stdout_is_terminal() -> (b: bool) {
    atty::is(atty::Stream::Stdout)
}

/// The text `text` in the colour `color`: between the escape sequence that
/// sets the colour and the one that resets it.
pub open spec fn colored(text: Seq<char>, color: Seq<char>) -> Seq<char> {
    "\x1b["@ + color + "m"@ + text + "\x1b[0m"@
}

/// The bar of `width` cells of which as many are filled as `current` is of
/// `total`, in brackets; nothing where `total` is zero.
pub open spec fn progress_bar(current: nat, total: nat, width: nat) -> Seq<char> {
    if total == 0 {
        Seq::<char>::empty()
    } else {
        let filled = (current * width) / total;
        seq!['['] + Seq::new(filled, |i: int| '█') + Seq::new(
            (width - filled) as nat,
            |i: int| '░',
        ) + seq![']']
    }
}

/// The word that goes with a number of errors.
pub open spec fn error_word(count: int) -> Seq<char> {
    if count == 1 {
        " error"@
    } else {
        " errors"@
    }
}

/// The details, each on a line of its own, indented.
pub open spec fn detail_lines(details: Seq<Seq<char>>) -> Seq<char>
    decreases details.len(),
{
    if details.len() == 0 {
        Seq::<char>::empty()
    } else {
        detail_lines(details.drop_last()) + "\n    "@ + details.last()
    }
}

/// Writes results for a reader.
#[derive(Clone, Copy, Debug, PartialEq, Eq, Structural)]
pub struct HumanFormatter {
    pub verbosity: VerbosityLevel,
    pub show_timestamps: bool,
    pub show_colors: bool,
}

impl HumanFormatter {
    /// A formatter that says as much as `verbosity` asks, without
    /// timestamps, in colour if the standard output is a terminal.
    pub fn new(verbosity: VerbosityLevel) -> (f: HumanFormatter)
        ensures
            f.verbosity == verbosity,
            !f.show_timestamps,
    {
        HumanFormatter { verbosity, show_timestamps: false, show_colors: stdout_is_terminal() }
    }

    pub fn with_options(verbosity: VerbosityLevel, show_timestamps: bool, show_colors: bool) -> (f:
        HumanFormatter)
        ensures
            f == (HumanFormatter { verbosity, show_timestamps, show_colors }),
    {
        HumanFormatter { verbosity, show_timestamps, show_colors }
    }

    /// Whether much is to be said.
    pub open spec fn wordy(&self) -> bool {
        self.verbosity == VerbosityLevel::Verbose || self.verbosity == VerbosityLevel::Debug
    }

    /// The text `text`, in the colour `color` where the formatter shows
    /// colours.
    pub open spec fn tinted(&self, text: Seq<char>, color: Seq<char>) -> Seq<char> {
        if self.show_colors {
            colored(text, color)
        } else {
            text
        }
    }

    /// The text `text`, in the colour `color` where the formatter shows
    /// colours.
    pub fn colorize(&self, text: &str, color: &str) -> (r: String)
        ensures
            r@ == self.tinted(text@, color@),
    {
        if self.show_colors {
            crate::text::concat5("\x1b[", color, "m", text, "\x1b[0m")
        } else {
            text.to_owned()
        }
    }

    /// What goes in front of a line written now: the time of day in
    /// brackets where the formatter shows timestamps, else nothing.
    pub fn format_timestamp(&self) -> (r: String)
        ensures
            is_stamp(self.show_timestamps, r@),
    {
        make_stamp(self.show_timestamps)
    }

    /// The text of the span of time `duration`.
    pub fn format_duration(&self, duration: Duration) -> (r: String)
        ensures
            r@ == duration_text(duration@),
    {
        format_duration(duration)
    }

    /// The bar of `width` cells for `current` of `total`.
    pub fn create_progress_bar(&self, current: usize, total: usize, width: usize) -> (r: String)
        requires
            current <= total,
        ensures
            r@ == progress_bar(current as nat, total as nat, width as nat),
    {
        if total == 0 {
            return String::new();
        }
        assert(current * width <= u128::MAX) by (nonlinear_arith)
            requires
                current <= u64::MAX,
                width <= u64::MAX,
        ;
        let filled_wide: u128 = (current as u128 * width as u128) / (total as u128);
        assert(filled_wide <= width) by (nonlinear_arith)
            requires
                filled_wide == (current * width) / (total as int),
                current <= total,
                total > 0,
        ;
        let filled: usize = filled_wide as usize;
        let mut out: Vec<char> = Vec::new();
        out.push('[');
        push_all(&mut out, &crate::text::repeat_char('█', filled));
        push_all(&mut out, &crate::text::repeat_char('░', width - filled));
        out.push(']');
        assert(out@ =~= progress_bar(current as nat, total as nat, width as nat));
        string_of(&out)
    }

    /// What is written of one file, behind the timestamp `stamp`: the
    /// status, the path, the time taken, and what the status has to add;
    /// where much is to be said, the details of an invalid file follow.
    pub open spec fn file_text(&self, result: FileValidationResult, stamp: Seq<char>) -> Seq<char> {
        let tail = "  "@ + result.path@ + " ("@ + duration_text(result.duration@) + ")"@;
        match result.status {
            ValidationStatus::Valid => stamp + self.tinted("✓ VALID"@, "32"@) + tail,
            ValidationStatus::Invalid { error_count } => stamp + self.tinted("✗ INVALID"@, "31"@)
                + tail + " - "@ + signed_decimal(error_count as int) + error_word(
                error_count as int,
            ) + if self.wordy() {
                detail_lines(result.details())
            } else {
                Seq::<char>::empty()
            },
            ValidationStatus::Error { message } => stamp + self.tinted("⚠ ERROR"@, "33"@) + tail
                + " - "@ + message@,
            ValidationStatus::Skipped { reason } => stamp + self.tinted("- SKIPPED"@, "36"@)
                + tail + " - "@ + reason@,
        }
    }

    fn push_tail(&self, out: &mut Vec<char>, result: &FileValidationResult)
        ensures
            final(out)@ == old(out)@ + ("  "@ + result.path@ + " ("@ + duration_text(
                result.duration@,
            ) + ")"@),
    {
        push_str(out, "  ");
        push_str(out, result.path.as_str());
        push_str(out, " (");
        push_str(out, format_duration(result.duration).as_str());
        push_str(out, ")");
        assert(out@ =~= old(out)@ + ("  "@ + result.path@ + " ("@ + duration_text(
            result.duration@,
        ) + ")"@));
    }

    /// What is written of one file, now.
    pub fn render_file_result(&self, result: &FileValidationResult) -> (r: String)
        ensures
            exists|stamp: Seq<char>| #[trigger]
                is_stamp(self.show_timestamps, stamp) && r@ == self.file_text(*result, stamp),
    {
        let stamp = self.format_timestamp();
        let r = self.file_result_with(result, stamp.as_str());
        assert(is_stamp(self.show_timestamps, stamp@) && r@ == self.file_text(*result, stamp@));
        r
    }

    /// What is written of one file, behind the timestamp `stamp`.
    pub fn file_result_with(&self, result: &FileValidationResult, stamp: &str) -> (r: String)
        ensures
            r@ == self.file_text(*result, stamp@),
    {
        let mut out: Vec<char> = Vec::new();
        push_str(&mut out, stamp);
        match &result.status {
            ValidationStatus::Valid => {
                push_str(&mut out, self.colorize("✓ VALID", "32").as_str());
                self.push_tail(&mut out, result);
            },
            ValidationStatus::Invalid { error_count } => {
                push_str(&mut out, self.colorize("✗ INVALID", "31").as_str());
                self.push_tail(&mut out, result);
                push_str(&mut out, " - ");
                push_all(&mut out, &write_signed_decimal(*error_count as i64));
                if *error_count == 1 {
                    push_str(&mut out, " error");
                } else {
                    push_str(&mut out, " errors");
                }
                let ghost head = out@;
                if matches!(self.verbosity, VerbosityLevel::Verbose | VerbosityLevel::Debug) {
                    let mut i: usize = 0;
                    assert(result.details().take(0) =~= Seq::<Seq<char>>::empty());
                    while i < result.error_details.len()
                        invariant
                            i <= result.error_details.len(),
                            out@ == head + detail_lines(result.details().take(i as int)),
                        decreases result.error_details.len() - i,
                    {
                        assert(result.details().take(i + 1).drop_last() =~= result.details().take(
                            i as int,
                        ));
                        push_str(&mut out, "\n    ");
                        push_str(&mut out, result.error_details[i].as_str());
                        i = i + 1;
                        assert(out@ =~= head + detail_lines(result.details().take(i as int)));
                    }
                    assert(result.details().take(result.error_details.len() as int)
                        =~= result.details());
                } else {
                    assert(out@ =~= head + Seq::<char>::empty());
                }
            },
            ValidationStatus::Error { message } => {
                push_str(&mut out, self.colorize("⚠ ERROR", "33").as_str());
                self.push_tail(&mut out, result);
                push_str(&mut out, " - ");
                push_str(&mut out, message.as_str());
            },
            ValidationStatus::Skipped { reason } => {
                push_str(&mut out, self.colorize("- SKIPPED", "36").as_str());
                self.push_tail(&mut out, result);
                push_str(&mut out, " - ");
                push_str(&mut out, reason.as_str());
            },
        }
        assert(out@ =~= self.file_text(*result, stamp@));
        string_of(&out)
    }

    /// The line of the summary that gives the count `count` under the
    /// label `label`, in the colour `color`.
    pub open spec fn count_line(&self, label: Seq<char>, color: Seq<char>, count: nat) -> Seq<char> {
        "  "@ + self.tinted(label, color) + " "@ + decimal(count) + "\n"@
    }

    fn push_count(&self, out: &mut Vec<char>, label: &str, color: &str, count: usize)
        ensures
            final(out)@ == old(out)@ + self.count_line(label@, color@, count as nat),
    {
        push_str(out, "  ");
        push_str(out, self.colorize(label, color).as_str());
        push_str(out, " ");
        push_decimal(out, count as u128);
        push_str(out, "\n");
        assert(out@ =~= old(out)@ + self.count_line(label@, color@, count as nat));
    }

    /// The timings of a run, as the summary gives them where much is to be
    /// said; the memory, the cache and the schemas are added where
    /// everything is to be said.
    pub open spec fn metrics_text(&self, m: PerformanceMetrics) -> Seq<char> {
        "\nPerformance Metrics:\n"@ + "  Discovery time: "@ + duration_text(
            m.discovery_duration@,
        ) + "\n"@ + "  Validation time: "@ + duration_text(m.validation_duration@) + "\n"@
            + "  Average per file: "@ + duration_text(m.average_time_per_file@) + "\n"@
            + "  Throughput: "@ + tenths(
            rounded(m.throughput_files_per_kilosecond as nat, 100),
        ) + " files/sec\n"@ + "  Concurrent validations: "@ + decimal(
            m.concurrent_validations as nat,
        ) + "\n"@ + if self.verbosity == VerbosityLevel::Debug {
            "  Peak memory: "@ + decimal(m.peak_memory_mb as nat) + " MB\n"@
                + "  Cache hit rate: "@ + tenths(m.cache_hit_rate_per_mille as nat) + "%\n"@
                + "  Schemas loaded: "@ + decimal(m.schema_cache_stats.schemas_loaded as nat)
                + "\n"@
        } else {
            Seq::<char>::empty()
        }
    }

    /// The timings of a run.
    pub fn format_performance_metrics(&self, m: &PerformanceMetrics) -> (r: String)
        ensures
            r@ == self.metrics_text(*m),
    {
        let mut out: Vec<char> = Vec::new();
        push_str(&mut out, "\nPerformance Metrics:\n");
        push_str(&mut out, "  Discovery time: ");
        push_str(&mut out, format_duration(m.discovery_duration).as_str());
        push_str(&mut out, "\n");
        push_str(&mut out, "  Validation time: ");
        push_str(&mut out, format_duration(m.validation_duration).as_str());
        push_str(&mut out, "\n");
        push_str(&mut out, "  Average per file: ");
        push_str(&mut out, format_duration(m.average_time_per_file).as_str());
        push_str(&mut out, "\n");
        push_str(&mut out, "  Throughput: ");
        push_tenths(&mut out, round_to(m.throughput_files_per_kilosecond, 100));
        push_str(&mut out, " files/sec\n");
        push_str(&mut out, "  Concurrent validations: ");
        push_decimal(&mut out, m.concurrent_validations as u128);
        push_str(&mut out, "\n");
        let ghost head = out@;
        if self.verbosity == VerbosityLevel::Debug {
            push_str(&mut out, "  Peak memory: ");
            push_decimal(&mut out, m.peak_memory_mb as u128);
            push_str(&mut out, " MB\n");
            push_str(&mut out, "  Cache hit rate: ");
            push_tenths(&mut out, m.cache_hit_rate_per_mille as u128);
            push_str(&mut out, "%\n");
            push_str(&mut out, "  Schemas loaded: ");
            push_decimal(&mut out, m.schema_cache_stats.schemas_loaded as u128);
            push_str(&mut out, "\n");
        } else {
            assert(out@ =~= head + Seq::<char>::empty());
        }
        assert(out@ =~= self.metrics_text(*m));
        string_of(&out)
    }

    /// The summary of a run, behind the timestamp `stamp`: the counts, of
    /// which those of invalid, failed and skipped files are left out where
    /// they are zero; the share of valid files; the time taken; and the
    /// timings where much is to be said.
    pub open spec fn summary_text(&self, results: ValidationResults, stamp: Seq<char>) -> Seq<char> {
        stamp + "Validation Summary:\n"@ + "  Total files: "@ + decimal(results.total_files as nat)
            + "\n"@ + self.count_line("Valid:"@, "32"@, results.valid_files as nat) + (
        if results.invalid_files > 0 {
            self.count_line("Invalid:"@, "31"@, results.invalid_files as nat)
        } else {
            Seq::<char>::empty()
        }) + (if results.error_files > 0 {
            self.count_line("Errors:"@, "33"@, results.error_files as nat)
        } else {
            Seq::<char>::empty()
        }) + (if results.skipped_files > 0 {
            self.count_line("Skipped:"@, "36"@, results.skipped_files as nat)
        } else {
            Seq::<char>::empty()
        }) + "  Success rate: "@ + tenths(
            per_mille(results.valid_files as nat, results.total_files as nat),
        ) + "%\n"@ + "  Duration: "@ + duration_text(results.total_duration@) + "\n"@ + (
        if self.wordy() {
            self.metrics_text(results.performance_metrics)
        } else {
            Seq::<char>::empty()
        })
    }

    /// The summary of a run, written now.
    pub fn render_summary(&self, results: &ValidationResults) -> (r: String)
        ensures
            exists|stamp: Seq<char>| #[trigger]
                is_stamp(self.show_timestamps, stamp) && r@ == self.summary_text(*results, stamp),
    {
        let stamp = self.format_timestamp();
        let r = self.summary_with(results, stamp.as_str());
        assert(is_stamp(self.show_timestamps, stamp@) && r@ == self.summary_text(*results, stamp@));
        r
    }

    /// The summary of a run, behind the timestamp `stamp`.
    pub fn summary_with(&self, results: &ValidationResults, stamp: &str) -> (r: String)
        ensures
            r@ == self.summary_text(*results, stamp@),
    {
        let mut out: Vec<char> = Vec::new();
        push_str(&mut out, stamp);
        push_str(&mut out, "Validation Summary:\n");
        push_str(&mut out, "  Total files: ");
        push_decimal(&mut out, results.total_files as u128);
        push_str(&mut out, "\n");
        self.push_count(&mut out, "Valid:", "32", results.valid_files);
        let ghost a = out@;
        if results.invalid_files > 0 {
            self.push_count(&mut out, "Invalid:", "31", results.invalid_files);
        } else {
            assert(out@ =~= a + Seq::<char>::empty());
        }
        let ghost b = out@;
        if results.error_files > 0 {
            self.push_count(&mut out, "Errors:", "33", results.error_files);
        } else {
            assert(out@ =~= b + Seq::<char>::empty());
        }
        let ghost c = out@;
        if results.skipped_files > 0 {
            self.push_count(&mut out, "Skipped:", "36", results.skipped_files);
        } else {
            assert(out@ =~= c + Seq::<char>::empty());
        }
        push_str(&mut out, "  Success rate: ");
        push_tenths(&mut out, results.success_rate_per_mille());
        push_str(&mut out, "%\n");
        push_str(&mut out, "  Duration: ");
        push_str(&mut out, format_duration(results.total_duration).as_str());
        push_str(&mut out, "\n");
        let ghost d = out@;
        if matches!(self.verbosity, VerbosityLevel::Verbose | VerbosityLevel::Debug) {
            push_str(&mut out, self.format_performance_metrics(&results.performance_metrics).as_str());
        } else {
            assert(out@ =~= d + Seq::<char>::empty());
        }
        assert(out@ =~= self.summary_text(*results, stamp@));
        string_of(&out)
    }
}

impl HumanFormatter {
    /// The name under which a file is shown while it is worked on: the last
    /// component of its path, or `unknown` where that is empty.
    pub open spec fn shown_name(path: Seq<char>) -> Seq<char> {
        if final_component(path).len() == 0 {
            "unknown"@
        } else {
            final_component(path)
        }
    }

    /// The line that tells how far a run has come, behind the timestamp
    /// `stamp`: nothing where little is to be said; else the bar, the
    /// counts and the share, and the file under way where much is to be
    /// said.
    pub open spec fn progress_text(
        &self,
        current: nat,
        total: nat,
        current_file: Option<Seq<char>>,
        stamp: Seq<char>,
    ) -> Seq<char> {
        if self.verbosity == VerbosityLevel::Quiet {
            Seq::<char>::empty()
        } else {
            "\r"@ + stamp + progress_bar(current, total, 40) + " "@ + decimal(current) + "/"@
                + decimal(total) + " ("@ + decimal(percentage(current, total)) + "%)"@ + (
            if self.wordy() && current_file is Some {
                " - "@ + Self::shown_name(current_file->0)
            } else {
                Seq::<char>::empty()
            })
        }
    }

    /// The line that tells how far a run has come, written now.
    pub fn render_progress(&self, current: usize, total: usize, current_file: Option<&String>) -> (r:
        String)
        requires
            current <= total,
        ensures
            exists|stamp: Seq<char>| #[trigger]
                is_stamp(self.show_timestamps, stamp) && r@ == self.progress_text(
                    current as nat,
                    total as nat,
                    match current_file {
                        Some(f) => Some(f@),
                        None => None,
                    },
                    stamp,
                ),
    {
        let stamp = self.format_timestamp();
        let r = self.progress_with(current, total, current_file, stamp.as_str());
        assert(is_stamp(self.show_timestamps, stamp@) && r@ == self.progress_text(
            current as nat,
            total as nat,
            match current_file {
                Some(f) => Some(f@),
                None => None,
            },
            stamp@,
        ));
        r
    }

    /// The line that tells how far a run has come, with the timestamp
    /// `stamp`.
    pub fn progress_with(
        &self,
        current: usize,
        total: usize,
        current_file: Option<&String>,
        stamp: &str,
    ) -> (r: String)
        requires
            current <= total,
        ensures
            r@ == self.progress_text(
                current as nat,
                total as nat,
                match current_file {
                    Some(f) => Some(f@),
                    None => None,
                },
                stamp@,
            ),
    {
        if matches!(self.verbosity, VerbosityLevel::Quiet) {
            return String::new();
        }
        let mut out: Vec<char> = Vec::new();
        push_str(&mut out, "\r");
        push_str(&mut out, stamp);
        push_str(&mut out, self.create_progress_bar(current, total, 40).as_str());
        push_str(&mut out, " ");
        push_decimal(&mut out, current as u128);
        push_str(&mut out, "/");
        push_decimal(&mut out, total as u128);
        push_str(&mut out, " (");
        push_decimal(&mut out, compute_percentage(current, total));
        push_str(&mut out, "%)");
        let ghost head = out@;
        let mut named = false;
        if matches!(self.verbosity, VerbosityLevel::Verbose | VerbosityLevel::Debug) {
            match current_file {
                Some(file) => {
                    let path = chars_of(file.as_str());
                    let start: usize = match find_last(&path, '/') {
                        Some(i) => i + 1,
                        None => 0,
                    };
                    let name = slice_of(&path, start, path.len());
                    assert(name@ =~= final_component(path@));
                    push_str(&mut out, " - ");
                    if name.len() == 0 {
                        push_str(&mut out, "unknown");
                    } else {
                        push_all(&mut out, &name);
                    }
                    named = true;
                },
                None => {},
            }
        }
        if !named {
            assert(out@ =~= head + Seq::<char>::empty());
        }
        assert(out@ =~= self.progress_text(
            current as nat,
            total as nat,
            match current_file {
                Some(f) => Some(f@),
                None => None,
            },
            stamp@,
        ));
        string_of(&out)
    }

    /// The schemas, numbered from one, each on a line of its own.
    pub open spec fn schema_lines(schemas: Seq<Seq<char>>) -> Seq<char>
        decreases schemas.len(),
    {
        if schemas.len() == 0 {
            Seq::<char>::empty()
        } else {
            Self::schema_lines(schemas.drop_last()) + "    "@ + decimal(schemas.len()) + ": "@
                + schemas.last() + "\n"@
        }
    }

    /// What is added where everything is to be said: the schemas used and
    /// the numbers of the cache.
    pub open spec fn debug_text(results: ValidationResults) -> Seq<char> {
        "\nDebug Information:\n"@ + "  Schemas used: "@ + decimal(results.schemas_used@.len())
            + "\n"@ + Self::schema_lines(results.schemas_used.deep_view())
            + "  Cache statistics:\n"@ + "    Hits: "@ + decimal(
            results.performance_metrics.schema_cache_stats.hits as nat,
        ) + "\n"@ + "    Misses: "@ + decimal(
            results.performance_metrics.schema_cache_stats.misses as nat,
        ) + "\n"@ + "    Size: "@ + decimal(
            results.performance_metrics.schema_cache_stats.cache_size_bytes as nat,
        ) + " bytes\n"@
    }

    /// What is added where everything is to be said.
    pub fn format_debug_info(&self, results: &ValidationResults) -> (r: String)
        ensures
            r@ == Self::debug_text(*results),
    {
        let mut out: Vec<char> = Vec::new();
        push_str(&mut out, "\nDebug Information:\n");
        push_str(&mut out, "  Schemas used: ");
        push_decimal(&mut out, results.schemas_used.len() as u128);
        push_str(&mut out, "\n");
        let ghost head = out@;
        let ghost schemas = results.schemas_used.deep_view();
        let mut i: usize = 0;
        assert(out@ =~= head + Self::schema_lines(schemas.take(0)));
        while i < results.schemas_used.len()
            invariant
                i <= results.schemas_used.len(),
                schemas == results.schemas_used.deep_view(),
                out@ == head + Self::schema_lines(schemas.take(i as int)),
            decreases results.schemas_used.len() - i,
        {
            assert(schemas.take(i + 1).drop_last() =~= schemas.take(i as int));
            assert(schemas.take(i + 1).last() == results.schemas_used@[i as int]@);
            push_str(&mut out, "    ");
            push_decimal(&mut out, i as u128 + 1);
            push_str(&mut out, ": ");
            push_str(&mut out, results.schemas_used[i].as_str());
            push_str(&mut out, "\n");
            i = i + 1;
            assert(out@ =~= head + Self::schema_lines(schemas.take(i as int)));
        }
        assert(schemas.take(results.schemas_used.len() as int) =~= schemas);
        push_str(&mut out, "  Cache statistics:\n");
        push_str(&mut out, "    Hits: ");
        push_decimal(&mut out, results.performance_metrics.schema_cache_stats.hits as u128);
        push_str(&mut out, "\n");
        push_str(&mut out, "    Misses: ");
        push_decimal(&mut out, results.performance_metrics.schema_cache_stats.misses as u128);
        push_str(&mut out, "\n");
        push_str(&mut out, "    Size: ");
        push_decimal(
            &mut out,
            results.performance_metrics.schema_cache_stats.cache_size_bytes as u128,
        );
        push_str(&mut out, " bytes\n");
        assert(out@ =~= Self::debug_text(*results));
        string_of(&out)
    }

    /// What is written of the files that are not valid, each behind the
    /// timestamp `stamp` and followed by the end of its line.
    pub open spec fn failure_lines(
        &self,
        results: Seq<FileValidationResult>,
        stamp: Seq<char>,
    ) -> Seq<char>
        decreases results.len(),
    {
        if results.len() == 0 {
            Seq::<char>::empty()
        } else {
            self.failure_lines(results.drop_last(), stamp) + if results.last().status is Valid {
                Seq::<char>::empty()
            } else {
                self.file_text(results.last(), stamp) + "\n"@
            }
        }
    }

    /// What is written of a run: where little is to be said, the counts of
    /// failed and invalid files if there are any; else the summary; where
    /// much is to be said, also the files that are not valid; and where
    /// everything is to be said, also the schemas and the cache. The
    /// summary and the files stand behind the timestamp `stamp`.
    pub open spec fn results_text(&self, results: ValidationResults, stamp: Seq<char>) -> Seq<char> {
        match self.verbosity {
            VerbosityLevel::Quiet => if results.error_files > 0 || results.invalid_files > 0 {
                "Errors: "@ + decimal(results.error_files as nat) + " Invalid: "@ + decimal(
                    results.invalid_files as nat,
                ) + "\n"@
            } else {
                Seq::<char>::empty()
            },
            VerbosityLevel::Normal => self.summary_text(results, stamp),
            _ => self.summary_text(results, stamp) + "\n"@ + self.failure_lines(
                results.file_results@,
                stamp,
            ) + if self.verbosity == VerbosityLevel::Debug {
                Self::debug_text(results)
            } else {
                Seq::<char>::empty()
            },
        }
    }

    /// What is written of a run, now.
    pub fn render_results(&self, results: &ValidationResults) -> (r: String)
        ensures
            exists|stamp: Seq<char>| #[trigger]
                is_stamp(self.show_timestamps, stamp) && r@ == self.results_text(*results, stamp),
    {
        let stamp = self.format_timestamp();
        let r = self.results_with(results, stamp.as_str());
        assert(is_stamp(self.show_timestamps, stamp@) && r@ == self.results_text(*results, stamp@));
        r
    }

    /// What is written of a run, with the timestamp `stamp`.
    pub fn results_with(&self, results: &ValidationResults, stamp: &str) -> (r: String)
        ensures
            r@ == self.results_text(*results, stamp@),
    {
        let mut out: Vec<char> = Vec::new();
        match self.verbosity {
            VerbosityLevel::Quiet => {
                if results.has_errors() {
                    push_str(&mut out, "Errors: ");
                    push_decimal(&mut out, results.error_files as u128);
                    push_str(&mut out, " Invalid: ");
                    push_decimal(&mut out, results.invalid_files as u128);
                    push_str(&mut out, "\n");
                }
            },
            VerbosityLevel::Normal => {
                push_str(&mut out, self.summary_with(results, stamp).as_str());
            },
            _ => {
                push_str(&mut out, self.summary_with(results, stamp).as_str());
                push_str(&mut out, "\n");
                let ghost head = out@;
                let ghost files = results.file_results@;
                let mut i: usize = 0;
                assert(out@ =~= head + self.failure_lines(files.take(0), stamp@));
                while i < results.file_results.len()
                    invariant
                        i <= results.file_results.len(),
                        files == results.file_results@,
                        out@ == head + self.failure_lines(files.take(i as int), stamp@),
                    decreases results.file_results.len() - i,
                {
                    assert(files.take(i + 1).drop_last() =~= files.take(i as int));
                    let ghost before = out@;
                    if !results.file_results[i].status.is_valid() {
                        push_str(
                            &mut out,
                            self.file_result_with(&results.file_results[i], stamp).as_str(),
                        );
                        push_str(&mut out, "\n");
                    } else {
                        assert(out@ =~= before + Seq::<char>::empty());
                    }
                    i = i + 1;
                    assert(out@ =~= head + self.failure_lines(files.take(i as int), stamp@));
                }
                assert(files.take(results.file_results.len() as int) =~= files);
                let ghost body = out@;
                if self.verbosity == VerbosityLevel::Debug {
                    push_str(&mut out, self.format_debug_info(results).as_str());
                } else {
                    assert(out@ =~= body + Seq::<char>::empty());
                }
            },
        }
        assert(out@ =~= self.results_text(*results, stamp@));
        string_of(&out)
    }
}

// ---------------------------------------------------------------------------
// In one line
// ---------------------------------------------------------------------------

/// Writes results in one line.
#[derive(Clone, Copy, Debug, PartialEq, Eq, Structural)]
pub struct SummaryFormatter {}

/// The mark of a status.
pub open spec fn status_mark(status: ValidationStatus) -> Seq<char> {
    match status {
        ValidationStatus::Valid => "✓"@,
        ValidationStatus::Invalid { .. } => "✗"@,
        ValidationStatus::Error { .. } => "⚠"@,
        ValidationStatus::Skipped { .. } => "-"@,
    }
}

impl SummaryFormatter {
    /// The line for a run: the valid files of all, their share, and the
    /// time taken in seconds.
    pub open spec fn results_text(results: ValidationResults) -> Seq<char> {
        decimal(results.valid_files as nat) + "/"@ + decimal(results.total_files as nat)
            + " valid ("@ + tenths(
            per_mille(results.valid_files as nat, results.total_files as nat),
        ) + "%) in "@ + hundredths(rounded(results.total_duration@, 10_000_000)) + "s"@
    }

    /// The line for a run.
    pub fn render_results(&self, results: &ValidationResults) -> (r: String)
        ensures
            r@ == Self::results_text(*results),
    {
        let mut out: Vec<char> = Vec::new();
        push_decimal(&mut out, results.valid_files as u128);
        push_str(&mut out, "/");
        push_decimal(&mut out, results.total_files as u128);
        push_str(&mut out, " valid (");
        push_tenths(&mut out, results.success_rate_per_mille());
        push_str(&mut out, "%) in ");
        push_hundredths(&mut out, round_to(results.total_duration.nanos, 10_000_000));
        push_str(&mut out, "s");
        assert(out@ =~= Self::results_text(*results));
        string_of(&out)
    }

    /// The line that tells how far a run has come.
    pub open spec fn progress_text(current: nat, total: nat) -> Seq<char> {
        "\r"@ + decimal(current) + "/"@ + decimal(total) + " ("@ + decimal(
            percentage(current, total),
        ) + "%)"@
    }

    /// The line that tells how far a run has come.
    pub fn render_progress(&self, current: usize, total: usize) -> (r: String)
        ensures
            r@ == Self::progress_text(current as nat, total as nat),
    {
        let mut out: Vec<char> = Vec::new();
        push_str(&mut out, "\r");
        push_decimal(&mut out, current as u128);
        push_str(&mut out, "/");
        push_decimal(&mut out, total as u128);
        push_str(&mut out, " (");
        push_decimal(&mut out, compute_percentage(current, total));
        push_str(&mut out, "%)");
        assert(out@ =~= Self::progress_text(current as nat, total as nat));
        string_of(&out)
    }

    /// The line for one file: the mark of its status, and its path.
    pub fn render_file_result(&self, result: &FileValidationResult) -> (r: String)
        ensures
            r@ == status_mark(result.status) + " "@ + result.path@,
    {
        let mark = match result.status {
            ValidationStatus::Valid => "✓",
            ValidationStatus::Invalid { .. } => "✗",
            ValidationStatus::Error { .. } => "⚠",
            ValidationStatus::Skipped { .. } => "-",
        };
        crate::text::concat3(mark, " ", result.path.as_str())
    }

    /// The line for the numbers of a run.
    pub open spec fn summary_text(results: ValidationResults) -> Seq<char> {
        "Total: "@ + decimal(results.total_files as nat) + " Valid: "@ + decimal(
            results.valid_files as nat,
        ) + " Invalid: "@ + decimal(results.invalid_files as nat) + " Errors: "@ + decimal(
            results.error_files as nat,
        ) + " ("@ + tenths(per_mille(results.valid_files as nat, results.total_files as nat))
            + "%)"@
    }

    /// The line for the numbers of a run.
    pub fn render_summary(&self, results: &ValidationResults) -> (r: String)
        ensures
            r@ == Self::summary_text(*results),
    {
        let mut out: Vec<char> = Vec::new();
        push_str(&mut out, "Total: ");
        push_decimal(&mut out, results.total_files as u128);
        push_str(&mut out, " Valid: ");
        push_decimal(&mut out, results.valid_files as u128);
        push_str(&mut out, " Invalid: ");
        push_decimal(&mut out, results.invalid_files as u128);
        push_str(&mut out, " Errors: ");
        push_decimal(&mut out, results.error_files as u128);
        push_str(&mut out, " (");
        push_tenths(&mut out, results.success_rate_per_mille());
        push_str(&mut out, "%)");
        assert(out@ =~= Self::summary_text(*results));
        string_of(&out)
    }
}

// ---------------------------------------------------------------------------
// For a program
// ---------------------------------------------------------------------------

/// Writes results as JSON. The formatter prepares the records; turning them
/// into text is the program's part.
#[derive(Clone, Copy, Debug, PartialEq, Eq, Structural)]
pub struct JsonFormatter {
    pub pretty_print: bool,
}

impl JsonFormatter {
    pub fn new(pretty_print: bool) -> (f: JsonFormatter)
        ensures
            f.pretty_print == pretty_print,
    {
        JsonFormatter { pretty_print }
    }
}

/// The record of one file.
#[derive(Clone, Debug, PartialEq, Eq)]
pub struct JsonFileResult {
    pub path: String,
    pub status: String,
    pub schema_url: Option<String>,
    pub duration_ms: u64,
    pub error_details: Vec<String>,
    pub error_count: Option<i32>,
}

/// The record of the cache.
#[derive(Clone, Copy, Debug, PartialEq, Eq, Structural)]
pub struct JsonCacheStats {
    pub hits: usize,
    pub misses: usize,
    pub schemas_loaded: usize,
    pub cache_size_bytes: u64,
}

/// The record of the numbers of a run.
#[derive(Clone, Copy, Debug, PartialEq, Eq, Structural)]
pub struct JsonSummary {
    pub total_files: usize,
    pub valid_files: usize,
    pub invalid_files: usize,
    pub error_files: usize,
    pub skipped_files: usize,
    /// The share of valid files, in thousandths.
    pub success_rate_per_mille: u128,
    pub total_duration_ms: u64,
}

/// The record of the timings of a run.
#[derive(Clone, Copy, Debug, PartialEq, Eq, Structural)]
pub struct JsonPerformanceMetrics {
    pub total_duration_ms: u64,
    pub discovery_duration_ms: u64,
    pub validation_duration_ms: u64,
    pub average_time_per_file_ms: u64,
    pub throughput_files_per_kilosecond: u128,
    pub peak_memory_mb: u64,
    pub cache_hit_rate_per_mille: u32,
    pub concurrent_validations: usize,
    pub cache_stats: JsonCacheStats,
}

/// The whole milliseconds of a span, as far as sixty-four bits count them.
pub open spec fn millis_of(d: Duration) -> u64 {
    if d@ / (NANOS_PER_MILLI as nat) <= u64::MAX {
        (d@ / (NANOS_PER_MILLI as nat)) as u64
    } else {
        u64::MAX
    }
}

/// The whole milliseconds of a span.
pub fn duration_millis(d: Duration) -> (ms: u64)
    ensures
        ms == millis_of(d),
{
    let ms = d.as_millis();
    if ms <= u64::MAX as u128 {
        ms as u64
    } else {
        u64::MAX
    }
}

/// The name of a status.
pub open spec fn status_name(status: ValidationStatus) -> Seq<char> {
    match status {
        ValidationStatus::Valid => "valid"@,
        ValidationStatus::Invalid { .. } => "invalid"@,
        ValidationStatus::Error { .. } => "error"@,
        ValidationStatus::Skipped { .. } => "skipped"@,
    }
}

/// Whether `r` is the record of the result `result`: its path, the name
/// of its status, its schema, the time taken in milliseconds, its details,
/// and the count of errors of an invalid file.
pub open spec fn records(r: JsonFileResult, result: FileValidationResult) -> bool {
    &&& r.path@ == result.path@
    &&& r.status@ == status_name(result.status)
    &&& r.schema_url.deep_view() == result.schema()
    &&& r.duration_ms == millis_of(result.duration)
    &&& r.error_details.deep_view() == result.error_details.deep_view()
    &&& r.error_count == match result.status {
        ValidationStatus::Invalid { error_count } => Some(error_count),
        _ => None,
    }
}

/// The record of the numbers of the run `results`.
pub open spec fn summary_record(results: ValidationResults) -> JsonSummary {
    JsonSummary {
        total_files: results.total_files,
        valid_files: results.valid_files,
        invalid_files: results.invalid_files,
        error_files: results.error_files,
        skipped_files: results.skipped_files,
        success_rate_per_mille: per_mille(
            results.valid_files as nat,
            results.total_files as nat,
        ) as u128,
        total_duration_ms: millis_of(results.total_duration),
    }
}

/// The record of the timings `m`.
pub open spec fn performance_record(m: PerformanceMetrics) -> JsonPerformanceMetrics {
    JsonPerformanceMetrics {
        total_duration_ms: millis_of(m.total_duration),
        discovery_duration_ms: millis_of(m.discovery_duration),
        validation_duration_ms: millis_of(m.validation_duration),
        average_time_per_file_ms: millis_of(m.average_time_per_file),
        throughput_files_per_kilosecond: m.throughput_files_per_kilosecond,
        peak_memory_mb: m.peak_memory_mb,
        cache_hit_rate_per_mille: m.cache_hit_rate_per_mille,
        concurrent_validations: m.concurrent_validations,
        cache_stats: JsonCacheStats {
            hits: m.schema_cache_stats.hits,
            misses: m.schema_cache_stats.misses,
            schemas_loaded: m.schema_cache_stats.schemas_loaded,
            cache_size_bytes: m.schema_cache_stats.cache_size_bytes,
        },
    }
}

impl JsonFileResult {
    /// The record of the result `result`.
    pub fn from(result: &FileValidationResult) -> (r: JsonFileResult)
        ensures
            records(r, *result),
    {
        let (status, error_count) = match &result.status {
            ValidationStatus::Valid => ("valid".to_owned(), None),
            ValidationStatus::Invalid { error_count } => ("invalid".to_owned(), Some(*error_count)),
            ValidationStatus::Error { .. } => ("error".to_owned(), None),
            ValidationStatus::Skipped { .. } => ("skipped".to_owned(), None),
        };
        let schema_url = match &result.schema_url {
            Some(u) => Some(u.clone()),
            None => None,
        };
        let mut error_details: Vec<String> = Vec::new();
        let mut i: usize = 0;
        while i < result.error_details.len()
            invariant
                i <= result.error_details.len(),
                error_details.deep_view() == result.error_details.deep_view().take(i as int),
            decreases result.error_details.len() - i,
        {
            let ghost before = error_details.deep_view();
            error_details.push(result.error_details[i].clone());
            assert(error_details.deep_view() =~= before.push(result.error_details@[i as int]@));
            assert(result.error_details.deep_view().take(i + 1)
                =~= result.error_details.deep_view().take(i as int).push(
                result.error_details@[i as int]@,
            ));
            i = i + 1;
        }
        assert(result.error_details.deep_view().take(result.error_details.len() as int)
            =~= result.error_details.deep_view());
        JsonFileResult {
            path: result.path.clone(),
            status,
            schema_url,
            duration_ms: duration_millis(result.duration),
            error_details,
            error_count,
        }
    }
}

impl JsonCacheStats {
    pub fn from(stats: &SchemaCacheStats) -> (r: JsonCacheStats)
        ensures
            r == (JsonCacheStats {
                hits: stats.hits,
                misses: stats.misses,
                schemas_loaded: stats.schemas_loaded,
                cache_size_bytes: stats.cache_size_bytes,
            }),
    {
        JsonCacheStats {
            hits: stats.hits,
            misses: stats.misses,
            schemas_loaded: stats.schemas_loaded,
            cache_size_bytes: stats.cache_size_bytes,
        }
    }
}

impl JsonSummary {
    pub fn from(results: &ValidationResults) -> (r: JsonSummary)
        ensures
            r == summary_record(*results),
    {
        JsonSummary {
            total_files: results.total_files,
            valid_files: results.valid_files,
            invalid_files: results.invalid_files,
            error_files: results.error_files,
            skipped_files: results.skipped_files,
            success_rate_per_mille: results.success_rate_per_mille(),
            total_duration_ms: duration_millis(results.total_duration),
        }
    }
}

impl JsonPerformanceMetrics {
    pub fn from(m: &PerformanceMetrics) -> (r: JsonPerformanceMetrics)
        ensures
            r == performance_record(*m),
    {
        JsonPerformanceMetrics {
            total_duration_ms: duration_millis(m.total_duration),
            discovery_duration_ms: duration_millis(m.discovery_duration),
            validation_duration_ms: duration_millis(m.validation_duration),
            average_time_per_file_ms: duration_millis(m.average_time_per_file),
            throughput_files_per_kilosecond: m.throughput_files_per_kilosecond,
            peak_memory_mb: m.peak_memory_mb,
            cache_hit_rate_per_mille: m.cache_hit_rate_per_mille,
            concurrent_validations: m.concurrent_validations,
            cache_stats: JsonCacheStats::from(&m.schema_cache_stats),
        }
    }
}

/// The record of a run.
#[derive(Clone, Debug, PartialEq, Eq)]
pub struct JsonValidationResults {
    pub summary: JsonSummary,
    pub files: Vec<JsonFileResult>,
    pub schemas: Vec<String>,
    pub performance: JsonPerformanceMetrics,
    /// When the record was made.
    pub timestamp: Timestamp,
}

impl JsonValidationResults {
    /// Whether this is the record of the run `results`, made at `now`: its
    /// numbers, the records of its files in their order, its schemas in
    /// their order, and its timings.
    pub open spec fn records_run(&self, results: ValidationResults, now: Timestamp) -> bool {
        &&& self.summary == summary_record(results)
        &&& self.files@.len() == results.file_results@.len()
        &&& forall|i: int|
            0 <= i < self.files@.len() ==> records(#[trigger] self.files@[i], results.file_results@[i])
        &&& self.schemas.deep_view() == results.schemas_used.deep_view()
        &&& self.performance == performance_record(results.performance_metrics)
        &&& self.timestamp == now
    }

    /// The record of the run `results`, made at `now`.
    pub fn from_at(results: &ValidationResults, now: Timestamp) -> (r: JsonValidationResults)
        ensures
            r.records_run(*results, now),
    {
        let mut files: Vec<JsonFileResult> = Vec::new();
        let mut i: usize = 0;
        while i < results.file_results.len()
            invariant
                i <= results.file_results.len(),
                files@.len() == i,
                forall|k: int|
                    0 <= k < i ==> records(#[trigger] files@[k], results.file_results@[k]),
            decreases results.file_results.len() - i,
        {
            files.push(JsonFileResult::from(&results.file_results[i]));
            i = i + 1;
        }
        let mut schemas: Vec<String> = Vec::new();
        let mut j: usize = 0;
        while j < results.schemas_used.len()
            invariant
                j <= results.schemas_used.len(),
                schemas.deep_view() == results.schemas_used.deep_view().take(j as int),
            decreases results.schemas_used.len() - j,
        {
            let ghost before = schemas.deep_view();
            schemas.push(results.schemas_used[j].clone());
            assert(schemas.deep_view() =~= before.push(results.schemas_used@[j as int]@));
            assert(results.schemas_used.deep_view().take(j + 1)
                =~= results.schemas_used.deep_view().take(j as int).push(
                results.schemas_used@[j as int]@,
            ));
            j = j + 1;
        }
        assert(results.schemas_used.deep_view().take(results.schemas_used.len() as int)
            =~= results.schemas_used.deep_view());
        JsonValidationResults {
            summary: JsonSummary::from(results),
            files,
            schemas,
            performance: JsonPerformanceMetrics::from(&results.performance_metrics),
            timestamp: now,
        }
    }

    /// The record of the run `results`, made now.
    pub fn from(results: &ValidationResults) -> (r: JsonValidationResults)
        ensures
            exists|now: Timestamp| #[trigger] r.records_run(*results, now),
    {
        let now = current_time();
        let r = Self::from_at(results, now);
        assert(r.records_run(*results, now));
        r
    }
}

// ---------------------------------------------------------------------------
// When progress is shown
// ---------------------------------------------------------------------------

/// Whether a report of progress is due: the last one lies at least
/// `interval` back, or the run has just come to its end.
pub fn progress_due(since_last: Duration, interval: Duration, current: usize, total: usize) -> (due:
    bool)
    ensures
        due == (since_last@ >= interval@ || current == total),
{
    since_last.nanos >= interval.nanos || current == total
}

// ---------------------------------------------------------------------------
// The choice of a formatter
// ---------------------------------------------------------------------------

/// One of the three formatters.
#[derive(Clone, Copy, Debug, PartialEq, Eq, Structural)]
pub enum Formatter {
    Human(HumanFormatter),
    Json(JsonFormatter),
    Summary(SummaryFormatter),
}

/// Makes formatters.
pub struct OutputFormatterFactory {}

impl OutputFormatterFactory {
    /// The formatter for the format `format`: for a reader one that says
    /// as much as `verbosity` asks; for a program one that writes JSON over
    /// several lines.
    pub fn create_formatter(format: OutputFormat, verbosity: VerbosityLevel) -> (f: Formatter)
        ensures
            match format {
                OutputFormat::Human => f matches Formatter::Human(h) && h.verbosity == verbosity
                    && !h.show_timestamps,
                OutputFormat::Json => f == Formatter::Json(JsonFormatter { pretty_print: true }),
                OutputFormat::Summary => f is Summary,
            },
    {
        match format {
            OutputFormat::Human => Formatter::Human(HumanFormatter::new(verbosity)),
            OutputFormat::Json => Formatter::Json(JsonFormatter::new(true)),
            OutputFormat::Summary => Formatter::Summary(SummaryFormatter {  }),
        }
    }
}

impl OutputFormatter for HumanFormatter {
    fn format_results(&self, results: &ValidationResults) -> (r: Result<String, OutputError>)
        ensures
            r matches Ok(text) && exists|stamp: Seq<char>| #[trigger]
                is_stamp(self.show_timestamps, stamp) && text@ == self.results_text(
                    *results,
                    stamp,
                ),
    {
        Ok(self.render_results(results))
    }

    fn format_progress(&self, current: usize, total: usize, current_file: Option<&String>) -> (r:
        Result<String, OutputError>)
        ensures
            r is Ok <==> current <= total,
            r matches Ok(text) ==> exists|stamp: Seq<char>| #[trigger]
                is_stamp(self.show_timestamps, stamp) && text@ == self.progress_text(
                    current as nat,
                    total as nat,
                    match current_file {
                        Some(f) => Some(f@),
                        None => None,
                    },
                    stamp,
                ),
    {
        if current <= total {
            Ok(self.render_progress(current, total, current_file))
        } else {
            Err(
                OutputError::FormatError(
                    "more files are done than there are".to_owned(),
                ),
            )
        }
    }

    fn format_file_result(&self, result: &FileValidationResult) -> (r: Result<String, OutputError>)
        ensures
            r matches Ok(text) && exists|stamp: Seq<char>| #[trigger]
                is_stamp(self.show_timestamps, stamp) && text@ == self.file_text(*result, stamp),
    {
        Ok(self.render_file_result(result))
    }

    fn format_summary(&self, results: &ValidationResults) -> (r: Result<String, OutputError>)
        ensures
            r matches Ok(text) && exists|stamp: Seq<char>| #[trigger]
                is_stamp(self.show_timestamps, stamp) && text@ == self.summary_text(
                    *results,
                    stamp,
                ),
    {
        Ok(self.render_summary(results))
    }
}

impl OutputFormatter for SummaryFormatter {
    fn format_results(&self, results: &ValidationResults) -> (r: Result<String, OutputError>)
        ensures
            r matches Ok(text) && text@ == Self::results_text(*results),
    {
        Ok(self.render_results(results))
    }

    fn format_progress(&self, current: usize, total: usize, current_file: Option<&String>) -> (r:
        Result<String, OutputError>)
        ensures
            r matches Ok(text) && text@ == Self::progress_text(current as nat, total as nat),
    {
        Ok(self.render_progress(current, total))
    }

    fn format_file_result(&self, result: &FileValidationResult) -> (r: Result<String, OutputError>)
        ensures
            r matches Ok(text) && text@ == status_mark(result.status) + " "@ + result.path@,
    {
        Ok(self.render_file_result(result))
    }

    fn format_summary(&self, results: &ValidationResults) -> (r: Result<String, OutputError>)
        ensures
            r matches Ok(text) && text@ == Self::summary_text(*results),
    {
        Ok(self.render_summary(results))
    }
}

} // verus!
