//! What holds of the pipeline for every line and every policy.

use crate::colors::ColorClass;
use crate::json::{json_members, member_at, MemberView, Members};
use crate::level::{Level, StackTraceMode};
use crate::pipeline::{process_spec, Fallback, FilterPolicy, Outcome, OutcomeView};
use crate::record::{
    decode_spec, entry_of, from_members_spec, level_key, logger_name_key, message_key,
    stack_trace_key, timestamp_key, LogEntryView,
};
use crate::render::{
    format_spec, format_with_time_spec, logger_spec, stack_trace_spec, time_spec,
};
use crate::text::{
    fold_case, last_segment_spec, lemma_last_segment, same_ignoring_case, segment_start,
};
use crate::timestamp::is_rfc3339;
use vstd::prelude::*;

verus! {

/// The levels are totally ordered, `Trace` below `Debug` below `Info` below
/// `Warn` below `Error` below `Fatal`.
pub proof fn lemma_level_order(a: Level, b: Level, c: Level)
    ensures
        Level::Trace.rank_spec() < Level::Debug.rank_spec() < Level::Info.rank_spec()
            < Level::Warn.rank_spec() < Level::Error.rank_spec() < Level::Fatal.rank_spec(),
        a.at_least_spec(a),
        a.at_least_spec(b) || b.at_least_spec(a),
        a.at_least_spec(b) && b.at_least_spec(a) ==> a == b,
        a.at_least_spec(b) && b.at_least_spec(c) ==> a.at_least_spec(c),
{
}

/// Each level is read back from its canonical name, and from no other
/// level's name.
pub proof fn lemma_names_are_read_back(level: Level)
    ensures
        Level::from_token_spec(level.name_spec()) == Some(level),
{
    reveal_strlit("TRACE");
    reveal_strlit("DEBUG");
    reveal_strlit("INFO");
    reveal_strlit("WARN");
    reveal_strlit("ERROR");
    reveal_strlit("FATAL");
    let name = level.name_spec();
    assert(same_ignoring_case(name, name));
    if level != Level::Trace {
        assert(fold_case(name[0]) != fold_case("TRACE"@[0]));
    }
    if level != Level::Debug {
        assert(fold_case(name[0]) != fold_case("DEBUG"@[0]));
    }
    if level != Level::Info {
        assert(fold_case(name[0]) != fold_case("INFO"@[0]));
    }
    if level != Level::Warn {
        assert(fold_case(name[0]) != fold_case("WARN"@[0]));
    }
    if level != Level::Error {
        assert(fold_case(name[0]) != fold_case("ERROR"@[0]));
    }
}

/// A line that holds a record is rendered if the record's level is at or
/// above the threshold, and suppressed if it is below.
pub proof fn lemma_emitted_iff_at_threshold(line: Seq<char>, policy: FilterPolicy)
    requires
        decode_spec(line) is Some,
    ensures
        decode_spec(line)->0.level.rank_spec() >= policy.min_level.rank_spec() ==> process_spec(
            line,
            policy,
        ) == OutcomeView::Emit(format_spec(decode_spec(line)->0, policy.stack_trace)),
        decode_spec(line)->0.level.rank_spec() < policy.min_level.rank_spec() ==> process_spec(
            line,
            policy,
        ) == OutcomeView::Suppressed,
        process_spec(line, policy) is Emit <==> decode_spec(line)->0.level.rank_spec()
            >= policy.min_level.rank_spec(),
{
}

/// The line is no JSON document, or it is one in which a required member is
/// no string or the level names none of the six.
pub open spec fn undecodable(line: Seq<char>) -> bool {
    match json_members(line) {
        None => true,
        Some(all) => {
            ||| !(member_at(all, message_key()) is Text)
            ||| !(member_at(all, timestamp_key()) is Text)
            ||| !(member_at(all, logger_name_key()) is Text)
            ||| match member_at(all, level_key()) {
                MemberView::Text(token) => Level::from_token_spec(token) is None,
                _ => true,
            }
        },
    }
}

/// A line that cannot be decoded is passed through as it came or dropped,
/// as the policy says, and never rendered.
pub proof fn lemma_undecodable_falls_back(line: Seq<char>, policy: FilterPolicy)
    requires
        undecodable(line),
    ensures
        decode_spec(line) is None,
        policy.fallback == Fallback::PassThrough ==> process_spec(line, policy)
            == OutcomeView::PassThrough(line),
        policy.fallback == Fallback::Drop ==> process_spec(line, policy) == OutcomeView::Dropped,
        !(process_spec(line, policy) is Emit),
{
}

/// Members under other keys than the five of a record change nothing.
pub proof fn lemma_other_members_ignored(all: Members, other: Members)
    requires
        member_at(all, message_key()) == member_at(other, message_key()),
        member_at(all, level_key()) == member_at(other, level_key()),
        member_at(all, timestamp_key()) == member_at(other, timestamp_key()),
        member_at(all, logger_name_key()) == member_at(other, logger_name_key()),
        member_at(all, stack_trace_key()) == member_at(other, stack_trace_key()),
    ensures
        entry_of(all) == entry_of(other),
{
}

/// The empty line is no record.
pub proof fn lemma_empty_line_is_no_record(policy: FilterPolicy)
    ensures
        decode_spec(Seq::empty()) is None,
        !(process_spec(Seq::empty(), policy) is Emit),
        !(process_spec(Seq::empty(), policy) is Suppressed),
{
}

/// Two outcomes of one line under one policy are the same.
pub proof fn lemma_outcome_is_determined(
    first: Outcome,
    second: Outcome,
    line: Seq<char>,
    policy: FilterPolicy,
)
    requires
        first@ == process_spec(line, policy),
        second@ == process_spec(line, policy),
    ensures
        first@ == second@,
{
}

/// A timestamp that is no RFC 3339 date and time is shown as it came, and
/// the record around it is rendered as any other.
pub proof fn lemma_timestamp_fallback(log: LogEntryView, mode: StackTraceMode)
    requires
        !is_rfc3339(log.timestamp),
    ensures
        time_spec(log) == ColorClass::Dim.code_spec() + log.timestamp,
        format_spec(log, mode) == format_with_time_spec(log, None, mode),
{
}

/// Whether members make a record does not depend on what the timestamp
/// holds, as long as it is a string.
pub proof fn lemma_any_timestamp_decodes(
    message: MemberView,
    level: MemberView,
    logger_name: MemberView,
    stack_trace: MemberView,
    timestamp: Seq<char>,
    other: Seq<char>,
)
    ensures
        from_members_spec(
            message,
            level,
            MemberView::Text(timestamp),
            logger_name,
            stack_trace,
        ) is Some <==> from_members_spec(
            message,
            level,
            MemberView::Text(other),
            logger_name,
            stack_trace,
        ) is Some,
        from_members_spec(
            message,
            level,
            MemberView::Text(timestamp),
            logger_name,
            stack_trace,
        ) matches Some(log) ==> log.timestamp == timestamp,
{
}

/// A stack trace is rendered behind a line break at the end of the record
/// when traces are asked for, and left out when they are not, whatever the
/// level of the record. A record without one is rendered the same way in
/// both modes.
pub proof fn lemma_stack_trace_inclusion(log: LogEntryView)
    ensures
        stack_trace_spec(log, StackTraceMode::Skip) == Seq::<char>::empty(),
        format_spec(log, StackTraceMode::Full) == format_spec(log, StackTraceMode::Skip)
            + stack_trace_spec(log, StackTraceMode::Full),
        log.stack_trace matches Some(trace) ==> stack_trace_spec(log, StackTraceMode::Full)
            == "\n"@ + ColorClass::Neutral.code_spec() + trace,
        log.stack_trace is None ==> format_spec(log, StackTraceMode::Full) == format_spec(
            log,
            StackTraceMode::Skip,
        ),
{
}

/// The logger block of a record with a name is the part of the name behind
/// its last `.`, which holds no `.` itself, followed by `": "`; a record
/// with an empty name has an empty block.
pub proof fn lemma_logger_block(log: LogEntryView)
    ensures
        log.logger_name.len() == 0 ==> logger_spec(log).len() == 0,
        log.logger_name.len() > 0 ==> logger_spec(log) == last_segment_spec(log.logger_name)
            + ": "@,
        !last_segment_spec(log.logger_name).contains('.'),
        log.logger_name == log.logger_name.take(segment_start(log.logger_name) as int)
            + last_segment_spec(log.logger_name),
        segment_start(log.logger_name) > 0 ==> log.logger_name[segment_start(log.logger_name)
            - 1] == '.',
{
    lemma_last_segment(log.logger_name);
}

} // verus!
