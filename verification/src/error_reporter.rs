//! What is said of an error, by how much is to be said.

use crate::cache::{current_time, Timestamp};
use crate::decimal::{decimal, digit_char, write_decimal};
use crate::duration::Duration;
use crate::error::{ConfigError, ValidationError};
use crate::text::{concat2, concat3, concat4, concat6, push_str, string_of};
use vstd::prelude::*;

verus! {

/// How much is to be said.
#[derive(Clone, Copy, Debug, PartialEq, Eq, Structural)]
pub enum VerbosityLevel {
    /// Only what is critical.
    Quiet,
    /// The errors.
    Normal,
    /// The errors, with context and advice.
    Verbose,
    /// Everything.
    Debug,
}

/// The numeral of a number below a hundred, in two digits.
pub open spec fn two_digits(n: int) -> Seq<char> {
    seq![digit_char((n / 10) % 10), digit_char(n % 10)]
}

/// The time of day at the moment `t`, in UTC: hours, minutes and seconds,
/// two digits each, with colons between.
pub open spec fn time_of_day(t: Timestamp) -> Seq<char> {
    let second = (t.millis as int % 86_400_000) / 1000;
    two_digits(second / 3600) + seq![':'] + two_digits((second / 60) % 60) + seq![':']
        + two_digits(second % 60)
}

fn push_two_digits(out: &mut Vec<char>, n: u128)
    requires
        n < 100,
    ensures
        final(out)@ == old(out)@ + two_digits(n as int),
{
    let tens = write_decimal(n / 10);
    let ones = write_decimal(n % 10);
    assert(decimal((n / 10) as nat) =~= seq![digit_char((n / 10) as int)]);
    assert(decimal((n % 10) as nat) =~= seq![digit_char((n % 10) as int)]);
    out.push(tens[0]);
    out.push(ones[0]);
    assert(out@ =~= old(out)@ + two_digits(n as int));
}

/// The time of day at the moment `t`.
pub fn format_time_of_day(t: Timestamp) -> (r: String)
    ensures
        r@ == time_of_day(t),
{
    let day: u128 = 86_400_000;
    let in_day: u128 = if t.millis >= 0 {
        (t.millis as u128) % day
    } else {
        let back: u128 = (-(t.millis as i128)) as u128 % day;
        if back == 0 {
            0
        } else {
            day - back
        }
    };
    assert(in_day == t.millis as int % 86_400_000);
    let second = in_day / 1000;
    let mut out: Vec<char> = Vec::new();
    push_two_digits(&mut out, second / 3600);
    out.push(':');
    push_two_digits(&mut out, (second / 60) % 60);
    out.push(':');
    push_two_digits(&mut out, second % 60);
    assert(out@ =~= time_of_day(t));
    string_of(&out)
}

/// The timestamp that goes in front of a line written at the moment `t`:
/// the time of day in brackets, and a blank.
pub open spec fn stamp_at(t: Timestamp) -> Seq<char> {
    "["@ + time_of_day(t) + "] "@
}

/// Whether `stamp` is what goes in front of a line: the timestamp of some
/// moment where timestamps are shown, and nothing where they are not.
pub open spec fn is_stamp(shown: bool, stamp: Seq<char>) -> bool {
    if shown {
        exists|t: Timestamp| stamp == #[trigger] stamp_at(t)
    } else {
        stamp.len() == 0
    }
}

/// What goes in front of a line that is written now.
pub fn make_stamp(shown: bool) -> (r: String)
    ensures
        is_stamp(shown, r@),
{
    if shown {
        let now = current_time();
        let time = format_time_of_day(now);
        let r = concat3("[", time.as_str(), "] ");
        assert(r@ == stamp_at(now));
        r
    } else {
        String::new()
    }
}

/// The numbers of a run, for a report.
#[derive(Clone, Copy, Debug, PartialEq, Eq, Structural)]
pub struct ValidationSummary {
    pub total_files: usize,
    pub valid_count: usize,
    pub invalid_count: usize,
    pub error_count: usize,
    pub duration: Duration,
    pub schemas_cached: usize,
    pub memory_usage_mb: u64,
    pub cache_hits: usize,
    pub cache_misses: usize,
}

impl ValidationSummary {
    /// The summary of a run of no files.
    pub fn new() -> (s: ValidationSummary)
        ensures
            s == (ValidationSummary {
                total_files: 0,
                valid_count: 0,
                invalid_count: 0,
                error_count: 0,
                duration: Duration { nanos: 0 },
                schemas_cached: 0,
                memory_usage_mb: 0,
                cache_hits: 0,
                cache_misses: 0,
            }),
    {
        ValidationSummary {
            total_files: 0,
            valid_count: 0,
            invalid_count: 0,
            error_count: 0,
            duration: Duration::zero(),
            schemas_cached: 0,
            memory_usage_mb: 0,
            cache_hits: 0,
            cache_misses: 0,
        }
    }

    /// Whether no file failed to be judged.
    pub fn is_successful(&self) -> (b: bool)
        ensures
            b == (self.error_count == 0),
    {
        self.error_count == 0
    }

    /// The share of valid files in thousandths, rounded to the nearest;
    /// zero where there is no file.
    pub fn success_rate_per_mille(&self) -> (r: u128)
        ensures
            r == crate::validator::per_mille(self.valid_count as nat, self.total_files as nat),
    {
        crate::validator::compute_per_mille(self.valid_count, self.total_files)
    }
}

impl Default for ValidationSummary {
    fn default() -> (s: ValidationSummary)
        ensures
            s == (ValidationSummary {
                total_files: 0,
                valid_count: 0,
                invalid_count: 0,
                error_count: 0,
                duration: Duration { nanos: 0 },
                schemas_cached: 0,
                memory_usage_mb: 0,
                cache_hits: 0,
                cache_misses: 0,
            }),
    {
        ValidationSummary::new()
    }
}

/// Whether an error is critical: it is said even where little is to be
/// said.
pub open spec fn critical(error: ValidationError) -> bool {
    error is Config || error is LibXml2Internal || error is ResourceExhaustion
}

/// What is said of an error where little is to be said.
pub open spec fn brief_text(error: ValidationError) -> Seq<char> {
    match error {
        ValidationError::ValidationFailed { file, .. } => "INVALID: "@ + file@,
        ValidationError::SchemaNotFound { url } => "SCHEMA NOT FOUND: "@ + url@,
        _ => "ERROR: "@ + error.display(),
    }
}

/// The advice that goes with an error, if there is any. The details of a
/// transport failure are added where `with_codes` asks for them.
pub open spec fn advice(error: ValidationError, with_codes: bool) -> Seq<char> {
    match error {
        ValidationError::Http(failure) =>
            "\nSuggestion: Check network connectivity and URL validity"@ + if with_codes {
                "\nHTTP Error Details: "@ + failure.message@
            } else {
                Seq::<char>::empty()
            },
        ValidationError::SchemaNotFound { url } =>
            "\nSuggestion: Verify the schema URL is correct and accessible: "@ + url@,
        ValidationError::ValidationFailed { file, details } => "\nFile: "@ + file@
            + "\nDetails: "@ + details@
            + "\nSuggestion: Check XML syntax and schema compliance"@,
        ValidationError::Cache(_) => "\nSuggestion: Try clearing the cache or check disk space"@,
        _ => Seq::<char>::empty(),
    }
}

/// The help that goes with a configuration error.
pub open spec fn config_help(error: ConfigError) -> Seq<char> {
    match error {
        ConfigError::FileNotFound { path } => "Try creating a configuration file at: "@ + path@,
        ConfigError::InvalidFormat { .. } =>
            "Check the configuration file syntax (TOML/JSON format expected)"@,
        ConfigError::MissingField { field } => "Add the required field '"@ + field@
            + "' to your configuration"@,
        ConfigError::InvalidValue { field, value, reason } => "Fix the value for '"@ + field@
            + "': current='"@ + value@ + "', reason: "@ + reason@,
        ConfigError::MergeConflict { .. } =>
            "Resolve conflicting configuration values between file, environment, and CLI"@,
    }
}

/// The share of `current` in `total` in whole hundredths, rounded down;
/// zero where `total` is zero.
pub open spec fn percentage(current: nat, total: nat) -> nat {
    if total == 0 {
        0
    } else {
        (current * 100) / total
    }
}

/// The share of `current` in `total` in whole hundredths.
pub fn compute_percentage(current: usize, total: usize) -> (p: u128)
    ensures
        p == percentage(current as nat, total as nat),
{
    if total == 0 {
        0
    } else {
        assert(current * 100 <= u128::MAX) by (nonlinear_arith)
            requires
                current <= u64::MAX,
        ;
        (current as u128 * 100) / (total as u128)
    }
}

/// The line that tells how far a run has come.
pub open spec fn progress_line(current: nat, total: nat) -> Seq<char> {
    "\rProgress: "@ + decimal(current) + "/"@ + decimal(total) + " ("@ + decimal(
        percentage(current, total),
    ) + "%)"@
}

/// The line that gives the number `n` between `label` and `unit`.
pub open spec fn counted_line(label: Seq<char>, n: nat, unit: Seq<char>) -> Seq<char> {
    label + decimal(n) + unit
}

/// The lines that sum a run up, by how much is to be said.
pub open spec fn summary_lines(verbosity: VerbosityLevel, s: ValidationSummary) -> Seq<Seq<char>> {
    let empty = Seq::<char>::empty();
    match verbosity {
        VerbosityLevel::Quiet => if s.error_count > 0 {
            seq![counted_line("Errors: "@, s.error_count as nat, ""@)]
        } else {
            Seq::<Seq<char>>::empty()
        },
        VerbosityLevel::Normal => seq![
            "Validation Summary:"@,
            counted_line("  Total files: "@, s.total_files as nat, ""@),
            counted_line("  Valid: "@, s.valid_count as nat, ""@),
            counted_line("  Invalid: "@, s.invalid_count as nat, ""@),
            counted_line("  Errors: "@, s.error_count as nat, ""@),
        ],
        _ => seq![
            "Validation Summary:"@,
            counted_line("  Total files processed: "@, s.total_files as nat, ""@),
            counted_line("  Valid files: "@, s.valid_count as nat, ""@),
            counted_line("  Invalid files: "@, s.invalid_count as nat, ""@),
            counted_line("  Files with errors: "@, s.error_count as nat, ""@),
            "  Duration: "@ + crate::output::duration_text(s.duration@),
            counted_line("  Schemas cached: "@, s.schemas_cached as nat, ""@),
        ] + if verbosity == VerbosityLevel::Debug {
            seq![
                counted_line("  Memory usage: "@, s.memory_usage_mb as nat, " MB"@),
                counted_line("  Cache hits: "@, s.cache_hits as nat, ""@),
                counted_line("  Cache misses: "@, s.cache_misses as nat, ""@),
            ]
        } else {
            Seq::<Seq<char>>::empty()
        },
    }
}

/// The line that gives the number `n` between `label` and `unit`.
fn counted(label: &str, n: u128, unit: &str) -> (r: String)
    ensures
        r@ == counted_line(label@, n as nat, unit@),
{
    let digits = string_of(&write_decimal(n));
    concat3(label, digits.as_str(), unit)
}

/// Says what there is to say of errors.
#[derive(Clone, Copy, Debug, PartialEq, Eq, Structural)]
pub struct ErrorReporter {
    pub verbosity: VerbosityLevel,
    pub show_timestamps: bool,
    pub show_error_codes: bool,
}

impl ErrorReporter {
    /// A reporter that says as much as `verbosity` asks, without
    /// timestamps and without error codes.
    pub fn new(verbosity: VerbosityLevel) -> (r: ErrorReporter)
        ensures
            r == (ErrorReporter { verbosity, show_timestamps: false, show_error_codes: false }),
    {
        ErrorReporter { verbosity, show_timestamps: false, show_error_codes: false }
    }

    pub fn with_options(
        verbosity: VerbosityLevel,
        show_timestamps: bool,
        show_error_codes: bool,
    ) -> (r: ErrorReporter)
        ensures
            r == (ErrorReporter { verbosity, show_timestamps, show_error_codes }),
    {
        ErrorReporter { verbosity, show_timestamps, show_error_codes }
    }

    /// Whether an error is critical.
    pub fn is_critical_error(&self, error: &ValidationError) -> (b: bool)
        ensures
            b == critical(*error),
    {
        match error {
            ValidationError::Config(_) => true,
            ValidationError::LibXml2Internal { .. } => true,
            ValidationError::ResourceExhaustion { .. } => true,
            _ => false,
        }
    }

    /// What is said of an error where little is to be said.
    pub fn format_error_brief(&self, error: &ValidationError) -> (r: String)
        ensures
            r@ == brief_text(*error),
    {
        match error {
            ValidationError::ValidationFailed { file, .. } => concat2("INVALID: ", file.as_str()),
            ValidationError::SchemaNotFound { url } => concat2("SCHEMA NOT FOUND: ", url.as_str()),
            _ => {
                let text = error.to_string();
                concat2("ERROR: ", text.as_str())
            },
        }
    }

    /// The text of an error, behind a timestamp where the reporter shows
    /// timestamps.
    pub fn format_error_normal(&self, error: &ValidationError) -> (r: String)
        ensures
            exists|stamp: Seq<char>| #[trigger]
                is_stamp(self.show_timestamps, stamp) && r@ == stamp + error.display(),
    {
        let stamp = make_stamp(self.show_timestamps);
        let text = error.to_string();
        let r = concat2(stamp.as_str(), text.as_str());
        assert(is_stamp(self.show_timestamps, stamp@) && r@ == stamp@ + error.display());
        r
    }

    /// The text of an error with the advice that goes with it.
    pub fn format_error_verbose(&self, error: &ValidationError) -> (r: String)
        ensures
            exists|stamp: Seq<char>| #[trigger]
                is_stamp(self.show_timestamps, stamp) && r@ == stamp + error.display() + advice(
                    *error,
                    self.show_error_codes,
                ),
    {
        let stamp = make_stamp(self.show_timestamps);
        let mut out: Vec<char> = Vec::new();
        push_str(&mut out, stamp.as_str());
        push_str(&mut out, error.to_string().as_str());
        match error {
            ValidationError::Http(failure) => {
                push_str(&mut out, "\nSuggestion: Check network connectivity and URL validity");
                if self.show_error_codes {
                    push_str(&mut out, "\nHTTP Error Details: ");
                    push_str(&mut out, failure.message.as_str());
                }
            },
            ValidationError::SchemaNotFound { url } => {
                push_str(
                    &mut out,
                    "\nSuggestion: Verify the schema URL is correct and accessible: ",
                );
                push_str(&mut out, url.as_str());
            },
            ValidationError::ValidationFailed { file, details } => {
                push_str(&mut out, "\nFile: ");
                push_str(&mut out, file.as_str());
                push_str(&mut out, "\nDetails: ");
                push_str(&mut out, details.as_str());
                push_str(&mut out, "\nSuggestion: Check XML syntax and schema compliance");
            },
            ValidationError::Cache(_) => {
                push_str(&mut out, "\nSuggestion: Try clearing the cache or check disk space");
            },
            _ => {},
        }
        assert(out@ =~= stamp@ + error.display() + advice(*error, self.show_error_codes));
        assert(is_stamp(self.show_timestamps, stamp@));
        string_of(&out)
    }

    /// The help that goes with a configuration error.
    pub fn get_config_help(&self, error: &ConfigError) -> (r: String)
        ensures
            r@ == config_help(*error),
    {
        match error {
            ConfigError::FileNotFound { path } => concat2(
                "Try creating a configuration file at: ",
                path.as_str(),
            ),
            ConfigError::InvalidFormat { .. } =>
                "Check the configuration file syntax (TOML/JSON format expected)".to_owned(),
            ConfigError::MissingField { field } => concat3(
                "Add the required field '",
                field.as_str(),
                "' to your configuration",
            ),
            ConfigError::InvalidValue { field, value, reason } => concat6(
                "Fix the value for '",
                field.as_str(),
                "': current='",
                value.as_str(),
                "', reason: ",
                reason.as_str(),
            ),
            ConfigError::MergeConflict { .. } =>
                "Resolve conflicting configuration values between file, environment, and CLI".to_owned(),
        }
    }

    /// What is to be said of an error, if anything: where little is to be
    /// said, only what is critical, and briefly; else the text of the
    /// error, with advice where much is to be said.
    pub fn validation_error_report(&self, error: &ValidationError) -> (r: Option<String>)
        ensures
            match self.verbosity {
                VerbosityLevel::Quiet => if critical(*error) {
                    r matches Some(t) && t@ == brief_text(*error)
                } else {
                    r is None
                },
                VerbosityLevel::Normal => r matches Some(t) && exists|stamp: Seq<char>| #[trigger]
                    is_stamp(self.show_timestamps, stamp) && t@ == stamp + error.display(),
                _ => r matches Some(t) && exists|stamp: Seq<char>| #[trigger]
                    is_stamp(self.show_timestamps, stamp) && t@ == stamp + error.display()
                        + advice(*error, self.show_error_codes),
            },
    {
        match self.verbosity {
            VerbosityLevel::Quiet => {
                if self.is_critical_error(error) {
                    Some(self.format_error_brief(error))
                } else {
                    None
                }
            },
            VerbosityLevel::Normal => Some(self.format_error_normal(error)),
            VerbosityLevel::Verbose => Some(self.format_error_verbose(error)),
            VerbosityLevel::Debug => Some(self.format_error_verbose(error)),
        }
    }

    /// What is said of a configuration error: briefly where little is to
    /// be said, else with the help that goes with it.
    pub fn config_error_report(&self, error: &ConfigError) -> (r: String)
        ensures
            r@ == if self.verbosity == VerbosityLevel::Quiet {
                "Config error: "@ + error.display()
            } else {
                "Configuration Error: "@ + error.display() + "\n"@ + config_help(*error)
            },
    {
        let text = error.to_string();
        match self.verbosity {
            VerbosityLevel::Quiet => concat2("Config error: ", text.as_str()),
            _ => {
                let help = self.get_config_help(error);
                concat4("Configuration Error: ", text.as_str(), "\n", help.as_str())
            },
        }
    }

    /// The lines that sum a run up: where little is to be said, the count
    /// of failed files if there is one; else the counts; where much is to
    /// be said, also the time taken and the schemas cached; and where
    /// everything is to be said, also the memory and the cache.
    pub fn summary_report(&self, summary: &ValidationSummary) -> (lines: Vec<String>)
        ensures
            lines.deep_view() == summary_lines(self.verbosity, *summary),
    {
        let mut lines: Vec<String> = Vec::new();
        match self.verbosity {
            VerbosityLevel::Quiet => {
                if summary.error_count > 0 {
                    lines.push(counted("Errors: ", summary.error_count as u128, ""));
                }
            },
            VerbosityLevel::Normal => {
                lines.push("Validation Summary:".to_owned());
                lines.push(counted("  Total files: ", summary.total_files as u128, ""));
                lines.push(counted("  Valid: ", summary.valid_count as u128, ""));
                lines.push(counted("  Invalid: ", summary.invalid_count as u128, ""));
                lines.push(counted("  Errors: ", summary.error_count as u128, ""));
            },
            _ => {
                lines.push("Validation Summary:".to_owned());
                lines.push(counted("  Total files processed: ", summary.total_files as u128, ""));
                lines.push(counted("  Valid files: ", summary.valid_count as u128, ""));
                lines.push(counted("  Invalid files: ", summary.invalid_count as u128, ""));
                lines.push(counted("  Files with errors: ", summary.error_count as u128, ""));
                let took = crate::output::format_duration(summary.duration);
                lines.push(concat2("  Duration: ", took.as_str()));
                lines.push(counted("  Schemas cached: ", summary.schemas_cached as u128, ""));
                if self.verbosity == VerbosityLevel::Debug {
                    lines.push(counted("  Memory usage: ", summary.memory_usage_mb as u128, " MB"));
                    lines.push(counted("  Cache hits: ", summary.cache_hits as u128, ""));
                    lines.push(counted("  Cache misses: ", summary.cache_misses as u128, ""));
                }
            },
        }
        assert(lines.deep_view() =~= summary_lines(self.verbosity, *summary));
        lines
    }

    /// The line that tells how far a run has come, or nothing where little
    /// is to be said. Where much is to be said, the file under way is
    /// named.
    pub fn progress_report(&self, current: usize, total: usize, current_file: Option<&String>) -> (r:
        Option<String>)
        ensures
            match self.verbosity {
                VerbosityLevel::Quiet => r is None,
                VerbosityLevel::Normal => r matches Some(t) && t@ == progress_line(
                    current as nat,
                    total as nat,
                ),
                _ => r matches Some(t) && t@ == progress_line(current as nat, total as nat) + (
                match current_file {
                    Some(f) => " - Processing: "@ + f@,
                    None => Seq::<char>::empty(),
                }),
            },
    {
        if self.verbosity == VerbosityLevel::Quiet {
            return None;
        }
        let mut out: Vec<char> = Vec::new();
        push_str(&mut out, "\rProgress: ");
        crate::text::push_all(&mut out, &write_decimal(current as u128));
        push_str(&mut out, "/");
        crate::text::push_all(&mut out, &write_decimal(total as u128));
        push_str(&mut out, " (");
        crate::text::push_all(&mut out, &write_decimal(compute_percentage(current, total)));
        push_str(&mut out, "%)");
        assert(out@ =~= progress_line(current as nat, total as nat));
        if self.verbosity != VerbosityLevel::Normal {
            match current_file {
                Some(f) => {
                    push_str(&mut out, " - Processing: ");
                    push_str(&mut out, f.as_str());
                },
                None => {
                    assert(out@ =~= progress_line(current as nat, total as nat) + Seq::<
                        char,
                    >::empty());
                },
            }
        }
        Some(string_of(&out))
    }
}

} // verus!
