use log_sentinel::config::LogRule;
use log_sentinel::parser::{
    is_alert_rule_name, is_severe_level, record_message, structured_alert_message, ConfigError,
    LogParser, LogRecord,
};
use log_sentinel::state::AppState;
use serde_json::Value;

fn decode(line: &str) -> Option<LogRecord> {
    let v: Value = serde_json::from_str(line).ok()?;
    let obj = v.as_object()?;
    let field = |k: &str| -> Result<Option<String>, ()> {
        match obj.get(k) {
            None | Some(Value::Null) => Ok(None),
            Some(Value::String(s)) => Ok(Some(s.clone())),
            _ => Err(()),
        }
    };
    Some(LogRecord {
        level: field("level").ok()?,
        severity: field("severity").ok()?,
        msg: field("msg").ok()?,
        message: field("message").ok()?,
    })
}

fn rule(name: &str, pattern: &str) -> LogRule {
    LogRule { name: name.to_string(), pattern: pattern.to_string(), threshold: 1 }
}

fn run(parser: &LogParser, state: &mut AppState, line: &str, now_ms: u64) -> bool {
    let record = decode(line);
    parser.process_line(line, &record, state, now_ms).is_some()
}

#[test]
fn test_process_line_regex_match() {
    let rules = vec![rule("TestError", "panic!")];
    let parser = LogParser::new(&rules).unwrap();
    let mut state = AppState::new(None);

    run(&parser, &mut state, "System panic! at the disco", 0);

    assert_eq!(state.total_errors, 1);
    assert_eq!(state.total_lines, 1);
}

#[test]
fn test_process_line_json_error() {
    let rules = vec![];
    let parser = LogParser::new(&rules).unwrap();
    let mut state = AppState::new(None);

    let json_log = r#"{"level": "error", "msg": "Database failed"}"#;
    run(&parser, &mut state, json_log, 0);

    assert_eq!(state.total_errors, 1);
}

#[test]
fn test_process_line_benign() {
    let rules = vec![rule("TestError", "panic!")];
    let parser = LogParser::new(&rules).unwrap();
    let mut state = AppState::new(None);

    run(&parser, &mut state, "Just a normal info log", 0);

    assert_eq!(state.total_errors, 0);
    assert_eq!(state.total_lines, 1);
}

#[test]
fn error_rule_records_raw_line() {
    let parser = LogParser::new(&[rule("Error", "(?i)error")]).unwrap();
    let mut state = AppState::new(None);
    run(&parser, &mut state, "ERROR: disk full", 0);
    assert_eq!(state.total_errors, 1);
    assert_eq!(state.total_lines, 1);
    assert_eq!(state.last_error.as_deref(), Some("ERROR: disk full"));
}

#[test]
fn structured_error_records_prefixed_msg() {
    let parser = LogParser::new(&[]).unwrap();
    let mut state = AppState::new(None);
    run(&parser, &mut state, r#"{"level":"error","msg":"db down"}"#, 0);
    assert_eq!(state.last_error.as_deref(), Some("structured: db down"));
}

#[test]
fn structured_prefers_message_then_msg_then_line() {
    let parser = LogParser::new(&[]).unwrap();
    let mut state = AppState::new(None);
    run(&parser, &mut state, r#"{"level":"PANIC","msg":"a","message":"b"}"#, 0);
    assert_eq!(state.last_error.as_deref(), Some("structured: b"));
    let line = r#"  {"severity":"Fatal"}"#;
    run(&parser, &mut state, line, 0);
    assert_eq!(state.last_error, Some(format!("structured: {}", line)));
    assert_eq!(state.total_errors, 2);
    assert_eq!(state.total_lines, 2);
}

#[test]
fn level_wins_over_severity() {
    let parser = LogParser::new(&[]).unwrap();
    let mut state = AppState::new(None);
    run(&parser, &mut state, r#"{"level":"info","severity":"error","msg":"x"}"#, 0);
    assert_eq!(state.total_errors, 0);
    assert_eq!(state.last_error, None);
}

#[test]
fn benign_structured_line_falls_back_to_rules() {
    let parser = LogParser::new(&[rule("Error", "(?i)error")]).unwrap();
    let mut state = AppState::new(None);
    let line = r#"{"level":"info","msg":"error budget ok"}"#;
    run(&parser, &mut state, line, 0);
    assert_eq!(state.total_errors, 1);
    assert_eq!(state.last_error.as_deref(), Some(line));
}

#[test]
fn malformed_structured_line_uses_rules() {
    let parser = LogParser::new(&[rule("Panic", "panic")]).unwrap();
    let mut state = AppState::new(None);
    let line = "{not json: panic";
    run(&parser, &mut state, line, 0);
    assert_eq!(state.total_errors, 1);
    assert_eq!(state.last_error.as_deref(), Some(line));
}

#[test]
fn record_ignored_for_plain_line() {
    let parser = LogParser::new(&[]).unwrap();
    let record = Some(LogRecord {
        level: Some("error".to_string()),
        severity: None,
        msg: Some("m".to_string()),
        message: None,
    });
    assert_eq!(parser.classify("plain text", &record), None);
    assert_eq!(parser.classify(" {x", &record), Some("structured: m".to_string()));
}

#[test]
fn healthy_line_changes_only_line_count() {
    let parser = LogParser::new(&[rule("Error", "(?i)error")]).unwrap();
    let mut state = AppState::new(None);
    run(&parser, &mut state, "ERROR one", 0);
    run(&parser, &mut state, "system healthy", 0);
    assert_eq!(state.total_lines, 2);
    assert_eq!(state.total_errors, 1);
    assert_eq!(state.last_error.as_deref(), Some("ERROR one"));
}

#[test]
fn first_declared_rule_decides() {
    let info_first = LogParser::new(&[rule("Info", "disk"), rule("Error", "full")]).unwrap();
    assert_eq!(info_first.first_match("disk full"), Some(0));
    assert_eq!(info_first.classify("disk full", &None), None);
    let error_first = LogParser::new(&[rule("Error", "full"), rule("Info", "disk")]).unwrap();
    assert_eq!(error_first.first_match("disk full"), Some(0));
    assert_eq!(error_first.classify("disk full", &None), Some("disk full".to_string()));
    assert_eq!(error_first.first_match("disk"), Some(1));
    assert_eq!(error_first.first_match("cpu"), None);
}

#[test]
fn no_rules_never_match() {
    let parser = LogParser::new(&[]).unwrap();
    assert_eq!(parser.first_match("anything at all"), None);
    assert_eq!(parser.classify("error panic", &None), None);
}

#[test]
fn invalid_pattern_is_rejected() {
    let r = LogParser::new(&[rule("Error", "error"), rule("Bad", "[unclosed")]);
    assert!(matches!(r, Err(ConfigError::InvalidPattern)));
}

#[test]
fn notifications_respect_cooldown() {
    let parser = LogParser::new(&[rule("Error", "(?i)error")]).unwrap();
    let mut state = AppState::new(Some("http://hook.local/x".to_string()));
    let first = parser.process_line("error a", &None, &mut state, 5000);
    let second = parser.process_line("error b", &None, &mut state, 6000);
    assert!(first.is_some());
    assert!(second.is_none());
    assert_eq!(state.total_errors, 2);
    let third = parser.process_line("error c", &None, &mut state, 15001);
    assert!(third.is_some());
    let n = third.unwrap();
    assert_eq!(n.url, "http://hook.local/x");
    assert_eq!(n.body, r#"{"text":"Sentinel Alert: error c"}"#);
}

#[test]
fn no_endpoint_no_notification() {
    let parser = LogParser::new(&[rule("Error", "(?i)error")]).unwrap();
    let mut state = AppState::new(None);
    assert!(parser.process_line("error a", &None, &mut state, 0).is_none());
    assert_eq!(state.last_webhook_sent, None);
}

#[test]
fn severe_levels() {
    assert!(is_severe_level("error"));
    assert!(is_severe_level("panic"));
    assert!(is_severe_level("fatal"));
    assert!(!is_severe_level("Error"));
    assert!(!is_severe_level("errors"));
    assert!(!is_severe_level(""));
}

#[test]
fn alerting_rule_names() {
    assert!(is_alert_rule_name("testerror"));
    assert!(is_alert_rule_name("kernel panic"));
    assert!(!is_alert_rule_name("info"));
    assert!(!is_alert_rule_name("TestError"));
    assert!(!is_alert_rule_name("err"));
}

#[test]
fn record_message_preference() {
    let rec = LogRecord { level: None, severity: None, msg: Some("m".to_string()), message: None };
    assert_eq!(record_message(&rec, "line"), "structured: m");
    let rec = LogRecord { level: None, severity: None, msg: None, message: None };
    assert_eq!(record_message(&rec, "line"), "structured: line");
}

#[test]
fn structured_alert_lowercases_level() {
    let rec = Some(LogRecord {
        level: Some("ERROR".to_string()),
        severity: None,
        msg: None,
        message: Some("x".to_string()),
    });
    assert_eq!(structured_alert_message("{}", &rec), Some("structured: x".to_string()));
    assert_eq!(structured_alert_message("{}", &None), None);
}
