use lcat::json::Member;
use lcat::level::Level;
use lcat::record::{decode, DecodeFailure, LogEntry};

fn text(s: &str) -> Member {
    Member::Text(s.to_string())
}

#[test]
fn decode_reads_the_four_required_members() {
    let line = r#"{"message":"test","level":"INFO","@timestamp":"2020-05-04T11:50:24.758+02:00","logger_name":"test.logger.Name"}"#;
    assert_eq!(
        decode(line),
        Ok(LogEntry {
            message: "test".to_string(),
            level: Level::Info,
            timestamp: "2020-05-04T11:50:24.758+02:00".to_string(),
            logger_name: "test.logger.Name".to_string(),
            stack_trace: None,
        })
    );
}

#[test]
fn decode_reads_the_stack_trace() {
    let line = r#"{"stack_trace":"at x\n\tat y","logger_name":"a","@timestamp":"t","level":"error","message":"m \"quoted\" é"}"#;
    assert_eq!(
        decode(line),
        Ok(LogEntry {
            message: "m \"quoted\" é".to_string(),
            level: Level::Error,
            timestamp: "t".to_string(),
            logger_name: "a".to_string(),
            stack_trace: Some("at x\n\tat y".to_string()),
        })
    );
}

#[test]
fn decode_takes_a_null_stack_trace_as_none() {
    let line = r#"{"message":"m","level":"WARN","@timestamp":"t","logger_name":"a","stack_trace":null}"#;
    assert_eq!(decode(line).unwrap().stack_trace, None);
}

#[test]
fn decode_keeps_an_empty_stack_trace() {
    let line = r#"{"message":"m","level":"WARN","@timestamp":"t","logger_name":"a","stack_trace":""}"#;
    assert_eq!(decode(line).unwrap().stack_trace, Some(String::new()));
}

#[test]
fn decode_ignores_other_members() {
    let line = r#"{"@version":1,"message":"m","thread_name":"main","level":"DEBUG","level_value":10000,"@timestamp":"t","logger_name":"a","tags":["x"],"mdc":{"message":"inner"}}"#;
    assert_eq!(
        decode(line),
        Ok(LogEntry {
            message: "m".to_string(),
            level: Level::Debug,
            timestamp: "t".to_string(),
            logger_name: "a".to_string(),
            stack_trace: None,
        })
    );
}

#[test]
fn decode_accepts_the_level_in_any_case() {
    for token in ["FATAL", "fatal", "Fatal", "fAtAl"] {
        let line = format!(
            r#"{{"message":"m","level":"{}","@timestamp":"t","logger_name":"a"}}"#,
            token
        );
        assert_eq!(decode(&line).unwrap().level, Level::Fatal);
    }
}

#[test]
fn decode_does_not_look_into_the_timestamp() {
    for stamp in ["", "yesterday", "2020-05-04T11:50:24.758+02:00", "12345"] {
        let line = format!(
            r#"{{"message":"m","level":"INFO","@timestamp":"{}","logger_name":"a"}}"#,
            stamp
        );
        assert_eq!(decode(&line).unwrap().timestamp, stamp);
    }
}

#[test]
fn decode_refuses_the_empty_line() {
    assert_eq!(decode(""), Err(DecodeFailure));
}

#[test]
fn decode_refuses_what_is_no_object() {
    assert_eq!(decode("not a json line"), Err(DecodeFailure));
    assert_eq!(decode("   "), Err(DecodeFailure));
    assert_eq!(decode("null"), Err(DecodeFailure));
    assert_eq!(decode("17"), Err(DecodeFailure));
    assert_eq!(decode(r#""message""#), Err(DecodeFailure));
    assert_eq!(decode("{}"), Err(DecodeFailure));
    assert_eq!(decode("[]"), Err(DecodeFailure));
    assert_eq!(
        decode(r#"["m","INFO","t","a"]"#),
        Err(DecodeFailure)
    );
    assert_eq!(
        decode(r#"{"message":"m","level":"INFO","@timestamp":"t","logger_name":"a""#),
        Err(DecodeFailure)
    );
    assert_eq!(
        decode(r#"{"message":"m","level":"INFO","@timestamp":"t","logger_name":"a"}}"#),
        Err(DecodeFailure)
    );
}

#[test]
fn decode_refuses_a_record_with_a_wrong_member() {
    assert_eq!(
        decode(r#"{"message":"m","level":"INFO","timestamp":"t","logger_name":"a"}"#),
        Err(DecodeFailure)
    );
    assert_eq!(
        decode(r#"{"message":"m","level":"INFO","@timestamp":"t","loggerName":"a"}"#),
        Err(DecodeFailure)
    );
    assert_eq!(
        decode(r#"{"message":"m","level":"VERBOSE","@timestamp":"t","logger_name":"a"}"#),
        Err(DecodeFailure)
    );
    assert_eq!(
        decode(r#"{"message":true,"level":"INFO","@timestamp":"t","logger_name":"a"}"#),
        Err(DecodeFailure)
    );
    assert_eq!(
        decode(r#"{"message":"m","level":"INFO","@timestamp":"t","logger_name":"a","stack_trace":["x"]}"#),
        Err(DecodeFailure)
    );
}

#[test]
fn from_members_builds_a_record() {
    assert_eq!(
        LogEntry::from_members(
            text("m"),
            text("warn"),
            text("t"),
            text("a.b"),
            Member::Absent
        ),
        Ok(LogEntry {
            message: "m".to_string(),
            level: Level::Warn,
            timestamp: "t".to_string(),
            logger_name: "a.b".to_string(),
            stack_trace: None,
        })
    );
    assert_eq!(
        LogEntry::from_members(text(""), text("TRACE"), text(""), text(""), text("")),
        Ok(LogEntry {
            message: String::new(),
            level: Level::Trace,
            timestamp: String::new(),
            logger_name: String::new(),
            stack_trace: Some(String::new()),
        })
    );
}

#[test]
fn from_members_fails_without_a_required_member() {
    let ok = || (text("m"), text("INFO"), text("t"), text("a"), Member::Absent);
    for missing in [Member::Absent, Member::Other] {
        let (m, l, t, n, s) = ok();
        assert_eq!(
            LogEntry::from_members(missing.clone(), l, t, n, s),
            Err(DecodeFailure)
        );
        let (_, l, t, n, s) = ok();
        assert_eq!(
            LogEntry::from_members(m, missing.clone(), t, n, s),
            Err(DecodeFailure)
        );
        let (m, _, _, n, s) = ok();
        assert_eq!(
            LogEntry::from_members(m, l, missing.clone(), n, s),
            Err(DecodeFailure)
        );
        let (m, l, t, _, s) = ok();
        assert_eq!(
            LogEntry::from_members(m, l, t, missing.clone(), s),
            Err(DecodeFailure)
        );
    }
}

#[test]
fn from_members_fails_on_an_unknown_level_or_a_wrong_stack_trace() {
    assert_eq!(
        LogEntry::from_members(text("m"), text("LOUD"), text("t"), text("a"), Member::Absent),
        Err(DecodeFailure)
    );
    assert_eq!(
        LogEntry::from_members(text("m"), text("INFO"), text("t"), text("a"), Member::Other),
        Err(DecodeFailure)
    );
}
