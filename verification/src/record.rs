//! The structured form of one log line.

use crate::json::{json_members, member, member_at, parse_document, Member, MemberView, Members};
use crate::level::Level;
use vstd::prelude::*;

verus! {

/// One decoded log record.
#[derive(Clone, Debug, PartialEq, Eq)]
pub struct LogEntry {
    pub message: String,
    pub level: Level,
    /// The timestamp as the line gave it, RFC 3339 or not.
    pub timestamp: String,
    /// The dot-separated name of the logger.
    pub logger_name: String,
    pub stack_trace: Option<String>,
}

/// What a [`LogEntry`] holds, as mathematical values.
pub struct LogEntryView {
    pub message: Seq<char>,
    pub level: Level,
    pub timestamp: Seq<char>,
    pub logger_name: Seq<char>,
    pub stack_trace: Option<Seq<char>>,
}

impl View for LogEntry {
    type V = LogEntryView;

    open spec fn view(&self) -> LogEntryView {
        LogEntryView {
            message: self.message@,
            level: self.level,
            timestamp: self.timestamp@,
            logger_name: self.logger_name@,
            stack_trace: match self.stack_trace {
                Some(trace) => Some(trace@),
                None => None,
            },
        }
    }
}

/// A line that is no well-formed record: it is no JSON document, a required
/// member is missing or no string, the level is none of the six, or the
/// stack trace is neither a string nor left out.
#[derive(Clone, Copy, Debug, PartialEq, Eq, Structural)]
pub struct DecodeFailure;

/// The key of the message.
pub open spec fn message_key() -> Seq<char> {
    "message"@
}

/// The key of the level.
pub open spec fn level_key() -> Seq<char> {
    "level"@
}

/// The key of the timestamp.
pub open spec fn timestamp_key() -> Seq<char> {
    "@timestamp"@
}

/// The key of the logger's name.
pub open spec fn logger_name_key() -> Seq<char> {
    "logger_name"@
}

/// The key of the stack trace.
pub open spec fn stack_trace_key() -> Seq<char> {
    "stack_trace"@
}

/// The record that five members make, if they make one: message, level,
/// timestamp and logger name must be strings, the level one of the six
/// names in any case of letters, and the stack trace a string or absent.
/// The timestamp is taken as it is, whatever it holds.
pub open spec fn from_members_spec(
    message: MemberView,
    level: MemberView,
    timestamp: MemberView,
    logger_name: MemberView,
    stack_trace: MemberView,
) -> Option<LogEntryView> {
    match (message, level, timestamp, logger_name) {
        (
            MemberView::Text(message),
            MemberView::Text(token),
            MemberView::Text(timestamp),
            MemberView::Text(logger_name),
        ) => match (Level::from_token_spec(token), stack_trace) {
            (Some(level), MemberView::Absent) => Some(
                LogEntryView { message, level, timestamp, logger_name, stack_trace: None },
            ),
            (Some(level), MemberView::Text(trace)) => Some(
                LogEntryView { message, level, timestamp, logger_name, stack_trace: Some(trace) },
            ),
            _ => None,
        },
        _ => None,
    }
}

/// The record that the members of a document make, if they make one.
pub open spec fn entry_of(all: Members) -> Option<LogEntryView> {
    from_members_spec(
        member_at(all, message_key()),
        member_at(all, level_key()),
        member_at(all, timestamp_key()),
        member_at(all, logger_name_key()),
        member_at(all, stack_trace_key()),
    )
}

/// The record that a line holds, if it holds one. An empty line holds none.
pub open spec fn decode_spec(line: Seq<char>) -> Option<LogEntryView> {
    if line.len() == 0 {
        None
    } else {
        match json_members(line) {
            Some(all) => entry_of(all),
            None => None,
        }
    }
}

impl LogEntry {
    /// Builds a record from the five members that a document has under the
    /// keys of a record.
    pub fn from_members(
        message: Member,
        level: Member,
        timestamp: Member,
        logger_name: Member,
        stack_trace: Member,
    ) -> (r: Result<LogEntry, DecodeFailure>)
        ensures
            match r {
                Ok(entry) => from_members_spec(
                    message@,
                    level@,
                    timestamp@,
                    logger_name@,
                    stack_trace@,
                ) == Some(entry@),
                Err(_) => from_members_spec(
                    message@,
                    level@,
                    timestamp@,
                    logger_name@,
                    stack_trace@,
                ) is None,
            },
    {
        let stack_trace = match stack_trace {
            Member::Absent => None,
            Member::Text(trace) => Some(trace),
            Member::Other => {
                return Err(DecodeFailure);
            },
        };
        match (message, level, timestamp, logger_name) {
            (
                Member::Text(message),
                Member::Text(token),
                Member::Text(timestamp),
                Member::Text(logger_name),
            ) => match Level::from_token(token.as_str()) {
                Some(level) => Ok(LogEntry { message, level, timestamp, logger_name, stack_trace }),
                None => Err(DecodeFailure),
            },
            _ => Err(DecodeFailure),
        }
    }
}

/// Decodes one line into a record.
pub fn decode(line: &str) -> (r: Result<LogEntry, DecodeFailure>)
    ensures
        match r {
            Ok(entry) => decode_spec(line@) == Some(entry@),
            Err(_) => decode_spec(line@) is None,
        },
{
    if line.is_empty() {
        return Err(DecodeFailure);
    }
    match parse_document(line) {
        Ok(doc) => LogEntry::from_members(
            member(&doc, "message"),
            member(&doc, "level"),
            member(&doc, "@timestamp"),
            member(&doc, "logger_name"),
            member(&doc, "stack_trace"),
        ),
        Err(_) => Err(DecodeFailure),
    }
}

} // verus!
