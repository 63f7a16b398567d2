//! The pipeline from a line to what is printed for it.

use crate::level::{Level, StackTraceMode};
use crate::record::{decode, decode_spec, DecodeFailure, LogEntry, LogEntryView};
use crate::render::{format_spec, text_of};
use vstd::prelude::*;

verus! {

/// What becomes of a line that is no record.
#[derive(Clone, Copy, Debug, PartialEq, Eq, Structural)]
pub enum Fallback {
    /// The line is printed as it came.
    PassThrough,
    /// The line is left out.
    Drop,
}

/// The rules of one run: which records are shown, whether with their stack
/// traces, and what becomes of lines that are no records.
#[derive(Clone, Copy, Debug, PartialEq, Eq, Structural)]
pub struct FilterPolicy {
    pub min_level: Level,
    pub stack_trace: StackTraceMode,
    pub fallback: Fallback,
}

/// What the pipeline makes of one line.
#[derive(Clone, Debug, PartialEq, Eq)]
pub enum Outcome {
    /// A record at or above the threshold, rendered.
    Emit(String),
    /// A record below the threshold.
    Suppressed,
    /// A line that is no record, as it came.
    PassThrough(String),
    /// A line that is no record, left out.
    Dropped,
}

/// An [`Outcome`] as a mathematical value.
pub enum OutcomeView {
    Emit(Seq<char>),
    Suppressed,
    PassThrough(Seq<char>),
    Dropped,
}

impl View for Outcome {
    type V = OutcomeView;

    open spec fn view(&self) -> OutcomeView {
        match self {
            Outcome::Emit(text) => OutcomeView::Emit(text@),
            Outcome::Suppressed => OutcomeView::Suppressed,
            Outcome::PassThrough(line) => OutcomeView::PassThrough(line@),
            Outcome::Dropped => OutcomeView::Dropped,
        }
    }
}

/// The rendering of a record, unless it is below `min_level`.
pub open spec fn filter_and_format_spec(
    log: LogEntryView,
    min_level: Level,
    mode: StackTraceMode,
) -> Option<Seq<char>> {
    if log.level.at_least_spec(min_level) {
        Some(format_spec(log, mode))
    } else {
        None
    }
}

/// The rendering of the record that `line` holds, `None` for a record below
/// `min_level`, and a failure where the line holds no record.
pub open spec fn parse_and_format_spec(
    line: Seq<char>,
    min_level: Level,
    mode: StackTraceMode,
) -> Result<Option<Seq<char>>, DecodeFailure> {
    match decode_spec(line) {
        Some(log) => Ok(filter_and_format_spec(log, min_level, mode)),
        None => Err(DecodeFailure),
    }
}

/// What becomes of a line once it is rendered, suppressed or found to be no
/// record.
pub open spec fn outcome_of_spec(
    parsed: Result<Option<Seq<char>>, DecodeFailure>,
    line: Seq<char>,
    fallback: Fallback,
) -> OutcomeView {
    match parsed {
        Ok(Some(text)) => OutcomeView::Emit(text),
        Ok(None) => OutcomeView::Suppressed,
        Err(_) => match fallback {
            Fallback::PassThrough => OutcomeView::PassThrough(line),
            Fallback::Drop => OutcomeView::Dropped,
        },
    }
}

/// What `policy` makes of `line`.
pub open spec fn process_spec(line: Seq<char>, policy: FilterPolicy) -> OutcomeView {
    outcome_of_spec(
        parse_and_format_spec(line, policy.min_level, policy.stack_trace),
        line,
        policy.fallback,
    )
}

/// The texts of a result of [`parse_and_format`].
pub open spec fn rendered(
    r: Result<Option<String>, DecodeFailure>,
) -> Result<Option<Seq<char>>, DecodeFailure> {
    match r {
        Ok(text) => Ok(text_of(text)),
        Err(failure) => Err(failure),
    }
}

impl FilterPolicy {
    /// The policy that shows every record in full and passes other lines
    /// through.
    pub open spec fn default_spec() -> FilterPolicy {
        FilterPolicy {
            min_level: Level::Trace,
            stack_trace: StackTraceMode::Full,
            fallback: Fallback::PassThrough,
        }
    }
}

impl Default for FilterPolicy {
    fn default() -> (r: FilterPolicy)
        ensures
            r == FilterPolicy::default_spec(),
    {
        FilterPolicy {
            min_level: Level::Trace,
            stack_trace: StackTraceMode::Full,
            fallback: Fallback::PassThrough,
        }
    }
}

/// Renders a record, unless it is below `min_level`.
pub fn filter_and_format(
    log: &LogEntry,
    min_level: &Level,
    stack_trace_mode: &StackTraceMode,
) -> (r: Option<String>)
    ensures
        text_of(r) == filter_and_format_spec(log@, *min_level, *stack_trace_mode),
{
    if log.level.at_least(*min_level) {
        Some(crate::render::format(log, stack_trace_mode))
    } else {
        None
    }
}

/// Decodes `line` and renders the record, unless it is below `min_level`.
pub fn parse_and_format(
    line: &str,
    min_level: &Level,
    stack_trace_mode: &StackTraceMode,
) -> (r: Result<Option<String>, DecodeFailure>)
    ensures
        rendered(r) == parse_and_format_spec(line@, *min_level, *stack_trace_mode),
{
    match decode(line) {
        Ok(log) => Ok(filter_and_format(&log, min_level, stack_trace_mode)),
        Err(failure) => Err(failure),
    }
}

/// Turns what came of decoding and rendering `line` into an outcome.
pub fn outcome_of(
    parsed: Result<Option<String>, DecodeFailure>,
    line: &str,
    fallback: Fallback,
) -> (r: Outcome)
    ensures
        r@ == outcome_of_spec(rendered(parsed), line@, fallback),
{
    match parsed {
        Ok(Some(text)) => Outcome::Emit(text),
        Ok(None) => Outcome::Suppressed,
        Err(_) => match fallback {
            Fallback::PassThrough => Outcome::PassThrough(String::from_str(line)),
            Fallback::Drop => Outcome::Dropped,
        },
    }
}

/// Runs one line through the pipeline.
pub fn process(line: &str, policy: &FilterPolicy) -> (r: Outcome)
    ensures
        r@ == process_spec(line@, *policy),
{
    outcome_of(
        parse_and_format(line, &policy.min_level, &policy.stack_trace),
        line,
        policy.fallback,
    )
}

} // verus!
