//! Rendering of a record as coloured text.

use crate::colors::ColorClass;
use crate::level::{Level, StackTraceMode};
use crate::record::{LogEntry, LogEntryView};
use crate::text::{last_segment, last_segment_spec};
use crate::timestamp::{is_rfc3339, is_short_display, short_time, short_time_spec};
use vstd::prelude::*;

verus! {

/// The class in which the label of `level` is rendered.
pub open spec fn level_class(level: Level) -> ColorClass {
    match level {
        Level::Error | Level::Fatal => ColorClass::Alert,
        Level::Warn => ColorClass::Caution,
        Level::Info => ColorClass::Neutral,
        Level::Trace | Level::Debug => ColorClass::Secondary,
    }
}

/// The timestamp as it is shown: in its short display where one was made of
/// it, as the record gave it otherwise.
pub open spec fn shown_time(raw: Seq<char>, short: Option<Seq<char>>) -> Seq<char> {
    ColorClass::Dim.paint_spec(
        match short {
            Some(text) => text,
            None => raw,
        },
    )
}

/// The timestamp of a record as it is shown.
pub open spec fn time_spec(log: LogEntryView) -> Seq<char> {
    shown_time(log.timestamp, short_time_spec(log.timestamp))
}

/// The canonical name of the record's level, in the class of that level.
pub open spec fn level_spec(log: LogEntryView) -> Seq<char> {
    level_class(log.level).paint_spec(log.level.name_spec())
}

/// The last segment of the logger's name with `": "` behind it; nothing
/// where the name is empty.
pub open spec fn logger_spec(log: LogEntryView) -> Seq<char> {
    if log.logger_name.len() == 0 {
        Seq::empty()
    } else {
        last_segment_spec(log.logger_name) + ": "@
    }
}

/// The message as the record gave it.
pub open spec fn message_spec(log: LogEntryView) -> Seq<char> {
    ColorClass::Neutral.paint_spec(log.message)
}

/// A line break and the trace, where the record has one and traces are
/// asked for; nothing otherwise.
pub open spec fn stack_trace_spec(log: LogEntryView, mode: StackTraceMode) -> Seq<char> {
    match log.stack_trace {
        Some(trace) if mode == StackTraceMode::Full => "\n"@ + ColorClass::Neutral.paint_spec(
            trace,
        ),
        _ => Seq::empty(),
    }
}

/// The whole rendering, given the short display that was made of the
/// timestamp, if one was: timestamp, label and logger block with one space
/// between them, then the message and the stack trace with nothing between.
pub open spec fn format_with_time_spec(
    log: LogEntryView,
    short: Option<Seq<char>>,
    mode: StackTraceMode,
) -> Seq<char> {
    shown_time(log.timestamp, short) + " "@ + level_spec(log) + " "@ + logger_spec(log)
        + message_spec(log) + stack_trace_spec(log, mode)
}

/// The whole rendering of a record.
pub open spec fn format_spec(log: LogEntryView, mode: StackTraceMode) -> Seq<char> {
    format_with_time_spec(log, short_time_spec(log.timestamp), mode)
}

/// The texts of an optional string.
pub open spec fn text_of(text: Option<String>) -> Option<Seq<char>> {
    match text {
        Some(text) => Some(text@),
        None => None,
    }
}

/// Renders a record.
pub fn format(log: &LogEntry, stack_trace_mode: &StackTraceMode) -> (r: String)
    ensures
        r@ == format_spec(log@, *stack_trace_mode),
{
    format_with_time(log, short_time(log.timestamp.as_str()), stack_trace_mode)
}

/// Renders a record whose timestamp has the short display `short`, or none.
pub fn format_with_time(
    log: &LogEntry,
    short: Option<String>,
    stack_trace_mode: &StackTraceMode,
) -> (r: String)
    ensures
        r@ == format_with_time_spec(log@, text_of(short), *stack_trace_mode),
{
    let mut out = render_time(log.timestamp.as_str(), short);
    out.append(" ");
    out.append(level(log).as_str());
    out.append(" ");
    out.append(logger(log).as_str());
    out.append(message(log).as_str());
    out.append(stack_trace(log, stack_trace_mode).as_str());
    out
}

/// Renders a timestamp from its raw text and the short display that was
/// made of it, if one was.
pub fn render_time(raw: &str, short: Option<String>) -> (r: String)
    ensures
        r@ == shown_time(raw@, text_of(short)),
{
    match short {
        Some(text) => ColorClass::Dim.paint(text.as_str()),
        None => ColorClass::Dim.paint(raw),
    }
}

/// Renders the timestamp of a record: reformatted where it is an RFC 3339
/// date and time, as it came where it is not.
pub fn time(log: &LogEntry) -> (r: String)
    ensures
        r@ == time_spec(log@),
        is_rfc3339(log@.timestamp) ==> is_short_display(
            r@.subrange(ColorClass::Dim.code_spec().len() as int, r@.len() as int),
        ),
{
    render_time(log.timestamp.as_str(), short_time(log.timestamp.as_str()))
}

/// The class in which the label of `level` is rendered.
pub fn class_of(level: Level) -> (r: ColorClass)
    ensures
        r == level_class(level),
{
    match level {
        Level::Error | Level::Fatal => ColorClass::Alert,
        Level::Warn => ColorClass::Caution,
        Level::Info => ColorClass::Neutral,
        _ => ColorClass::Secondary,
    }
}

/// Renders the label of a record's level.
pub fn level(log: &LogEntry) -> (r: String)
    ensures
        r@ == level_spec(log@),
{
    class_of(log.level).paint(log.level.name())
}

/// Renders the logger block of a record.
pub fn logger(log: &LogEntry) -> (r: String)
    ensures
        r@ == logger_spec(log@),
{
    let name = log.logger_name.as_str();
    if name.is_empty() {
        String::new()
    } else {
        let mut out = String::from_str(last_segment(name));
        out.append(": ");
        out
    }
}

/// Renders the message of a record.
pub fn message(log: &LogEntry) -> (r: String)
    ensures
        r@ == message_spec(log@),
{
    ColorClass::Neutral.paint(log.message.as_str())
}

/// Renders the stack trace of a record, if it has one and `stack_trace_mode`
/// asks for it.
pub fn stack_trace(log: &LogEntry, stack_trace_mode: &StackTraceMode) -> (r: String)
    ensures
        r@ == stack_trace_spec(log@, *stack_trace_mode),
{
    match &log.stack_trace {
        Some(trace) if *stack_trace_mode == StackTraceMode::Full => {
            let mut out = String::from_str("\n");
            out.append(ColorClass::Neutral.paint(trace.as_str()).as_str());
            out
        },
        _ => String::new(),
    }
}

} // verus!
