use crate::config::LogRule;
use crate::matcher::{compile_set, first_hit, first_matching, patterns_compile, set_patterns};
use crate::notify::{notification, payload_of, Notification};
use crate::state::{throttle_after, throttle_open, AppState};
use crate::text::{contains_text, has_infix, looks_structured, lower_of, lowercase, opens_record};
use regex::RegexSet;
use vstd::prelude::*;

verus! {

/// The fields of a structured (JSON) log line that classification reads.
/// A field absent from the line, or `null` there, is `None`.
pub struct LogRecord {
    pub level: Option<String>,
    pub severity: Option<String>,
    pub msg: Option<String>,
    pub message: Option<String>,
}

/// Why a rule set could not be turned into a matcher.
#[derive(Debug, PartialEq, Eq, Structural)]
pub enum ConfigError {
    /// Some pattern is not a valid regular expression.
    InvalidPattern,
}

/// Classifies log lines against an ordered set of named patterns.
pub struct LogParser {
    regex_set: RegexSet,
    rule_names: Vec<String>,
}

/// The text of an optional string.
pub open spec fn opt_view(o: Option<String>) -> Option<Seq<char>> {
    match o {
        Some(s) => Some(s@),
        None => None,
    }
}

/// The patterns of a rule list, in order.
pub open spec fn rule_patterns(rules: Seq<LogRule>) -> Seq<Seq<char>> {
    rules.map_values(|r: LogRule| r.pattern@)
}

/// The names of a rule list, in order.
pub open spec fn rule_names(rules: Seq<LogRule>) -> Seq<Seq<char>> {
    rules.map_values(|r: LogRule| r.name@)
}

/// A record's level: its `level` field, else its `severity` field.
pub open spec fn record_level(r: LogRecord) -> Option<Seq<char>> {
    if r.level is Some {
        opt_view(r.level)
    } else {
        opt_view(r.severity)
    }
}

/// A record's text: its `message` field, else its `msg` field, else the line.
pub open spec fn record_text(r: LogRecord, line: Seq<char>) -> Seq<char> {
    match r.message {
        Some(m) => m@,
        None => match r.msg {
            Some(m) => m@,
            None => line,
        },
    }
}

/// Whether a lower-cased level names a severe event.
pub open spec fn severe(lowered: Seq<char>) -> bool {
    lowered == "error"@ || lowered == "panic"@ || lowered == "fatal"@
}

/// Whether a lower-cased rule name marks its matches as alerts.
pub open spec fn alerting_name(lowered: Seq<char>) -> bool {
    has_infix(lowered, "error"@) || has_infix(lowered, "panic"@)
}

/// Whether the line is structured and its record carries a severe level.
pub open spec fn structured_alert(line: Seq<char>, record: Option<LogRecord>) -> bool {
    &&& opens_record(line)
    &&& record is Some
    &&& record_level(record->0) is Some
    &&& severe(lower_of(record_level(record->0)->0))
}

/// The alert message of a structured line.
pub open spec fn structured_message(r: LogRecord, line: Seq<char>) -> Seq<char> {
    "structured: "@ + record_text(r, line)
}

/// The alert message for a line (none if the line is benign), given the
/// patterns and names of the rules and the record decoded from the line.
pub open spec fn alert_of(
    ps: Seq<Seq<char>>,
    names: Seq<Seq<char>>,
    line: Seq<char>,
    record: Option<LogRecord>,
) -> Option<Seq<char>> {
    if structured_alert(line, record) {
        Some(structured_message(record->0, line))
    } else {
        match first_hit(ps, line) {
            Some(i) => if alerting_name(lower_of(names[i])) {
                Some(line)
            } else {
                None
            },
            None => None,
        }
    }
}

/// Whether a lower-cased level is `error`, `panic` or `fatal`.
pub fn is_severe_level(lowered: &str) -> (r: bool)
    ensures
        r == severe(lowered@),
{
    let s = String::from_str(lowered);
    s == String::from_str("error") || s == String::from_str("panic") || s == String::from_str(
        "fatal",
    )
}

/// Whether a lower-cased rule name contains `error` or `panic`.
pub fn is_alert_rule_name(lowered: &str) -> (r: bool)
    ensures
        r == alerting_name(lowered@),
{
    contains_text(lowered, "error") || contains_text(lowered, "panic")
}

/// The text of a severe record: `structured: ` followed by its `message`
/// field, else its `msg` field, else the raw line.
pub fn record_message(record: &LogRecord, line: &str) -> (r: String)
    ensures
        r@ == structured_message(*record, line@),
{
    let mut out = String::from_str("structured: ");
    match &record.message {
        Some(m) => out.append(m.as_str()),
        None => match &record.msg {
            Some(m) => out.append(m.as_str()),
            None => out.append(line),
        },
    }
    out
}

/// The alert message of a structured line with a severe level; `None` for
/// any other line.
pub fn structured_alert_message(line: &str, record: &Option<LogRecord>) -> (r: Option<String>)
    ensures
        opt_view(r) == (if structured_alert(line@, *record) {
            Some(structured_message(record->0, line@))
        } else {
            None
        }),
{
    if !looks_structured(line) {
        return None;
    }
    match record {
        None => None,
        Some(rec) => {
            let level = match &rec.level {
                Some(l) => Some(l),
                None => match &rec.severity {
                    Some(s) => Some(s),
                    None => None,
                },
            };
            match level {
                None => None,
                Some(l) => {
                    let lowered = lowercase(l.as_str());
                    if is_severe_level(lowered.as_str()) {
                        Some(record_message(rec, line))
                    } else {
                        None
                    }
                },
            }
        },
    }
}

impl LogParser {
    /// The patterns of the rules, in declaration order.
    pub closed spec fn patterns(&self) -> Seq<Seq<char>> {
        set_patterns(self.regex_set)
    }

    /// The names of the rules, in declaration order.
    pub closed spec fn names(&self) -> Seq<Seq<char>> {
        self.rule_names.deep_view()
    }

    /// One name for each pattern.
    pub open spec fn wf(&self) -> bool {
        self.names().len() == self.patterns().len()
    }

    /// Compiles the rules into one matcher; fails when the patterns do not
    /// form a valid regular-expression set.
    pub fn new(config_rules: &[LogRule]) -> (r: Result<LogParser, ConfigError>)
        ensures
            r is Ok <==> patterns_compile(rule_patterns(config_rules@)),
            r is Ok ==> r->Ok_0.wf(),
            r is Ok ==> r->Ok_0.patterns() == rule_patterns(config_rules@),
            r is Ok ==> r->Ok_0.names() == rule_names(config_rules@),
            r is Err ==> r->Err_0 == ConfigError::InvalidPattern,
    {
        let mut patterns: Vec<String> = Vec::new();
        let mut names: Vec<String> = Vec::new();
        let mut i: usize = 0;
        while i < config_rules.len()
            invariant
                i <= config_rules@.len(),
                patterns@.len() == i,
                names@.len() == i,
                forall|k: int| 0 <= k < i ==> #[trigger] patterns@[k]@ == config_rules@[k].pattern@,
                forall|k: int| 0 <= k < i ==> #[trigger] names@[k]@ == config_rules@[k].name@,
            decreases config_rules@.len() - i,
        {
            patterns.push(config_rules[i].pattern.clone());
            names.push(config_rules[i].name.clone());
            i = i + 1;
        }
        assert(patterns.deep_view() =~= rule_patterns(config_rules@));
        assert(names.deep_view() =~= rule_names(config_rules@));
        match compile_set(&patterns) {
            Ok(set) => Ok(LogParser { regex_set: set, rule_names: names }),
            Err(_) => Err(ConfigError::InvalidPattern),
        }
    }

    /// The index of the first rule, by declaration order, whose pattern
    /// matches anywhere in `line`.
    pub fn first_match(&self, line: &str) -> (r: Option<usize>)
        ensures
            match r {
                Some(i) => first_hit(self.patterns(), line@) == Some(i as int),
                None => first_hit(self.patterns(), line@) is None,
            },
    {
        first_matching(&self.regex_set, line)
    }

    /// The alert message for `line`, or `None` when the line is benign.
    /// `record` holds the fields decoded from the line when it parses as a
    /// structured record; it is read only when the line opens with `{`.
    pub fn classify(&self, line: &str, record: &Option<LogRecord>) -> (r: Option<String>)
        requires
            self.wf(),
        ensures
            opt_view(r) == alert_of(self.patterns(), self.names(), line@, *record),
    {
        let structured = structured_alert_message(line, record);
        if structured.is_some() {
            return structured;
        }
        match self.first_match(line) {
            None => None,
            Some(i) => {
                let lowered = lowercase(self.rule_names[i].as_str());
                if is_alert_rule_name(lowered.as_str()) {
                    Some(String::from_str(line))
                } else {
                    None
                }
            },
        }
    }

    /// Processes one line: counts it, classifies it, records an alert, and
    /// when the alert passes the cooldown throttle and an endpoint is set,
    /// returns the notification to dispatch. `now_ms` is the current time
    /// in milliseconds since the state was created.
    pub fn process_line(
        &self,
        line: &str,
        record: &Option<LogRecord>,
        state: &mut AppState,
        now_ms: u64,
    ) -> (r: Option<Notification>)
        requires
            self.wf(),
            old(state).total_lines < u64::MAX,
            old(state).total_errors < u64::MAX,
        ensures
            final(state).total_lines == old(state).total_lines + 1,
            final(state).webhook_url == old(state).webhook_url,
            match alert_of(self.patterns(), self.names(), line@, *record) {
                None => {
                    &&& final(state).total_errors == old(state).total_errors
                    &&& final(state).last_error == old(state).last_error
                    &&& final(state).last_webhook_sent == old(state).last_webhook_sent
                    &&& r is None
                },
                Some(m) => {
                    &&& final(state).total_errors == old(state).total_errors + 1
                    &&& opt_view(final(state).last_error) == Some(m)
                    &&& if old(state).webhook_url is Some {
                        &&& final(state).last_webhook_sent == throttle_after(
                            old(state).last_webhook_sent,
                            now_ms,
                        )
                        &&& (r is Some <==> throttle_open(old(state).last_webhook_sent, now_ms))
                    } else {
                        &&& final(state).last_webhook_sent == old(state).last_webhook_sent
                        &&& r is None
                    }
                    &&& r is Some ==> r->0.url@ == old(state).webhook_url->0@ && r->0.body@
                        == payload_of(m)
                },
            },
    {
        state.increment_lines();
        match self.classify(line, record) {
            None => None,
            Some(message) => {
                let out = match &state.webhook_url {
                    None => None,
                    Some(url) => Some(notification(url, message.as_str())),
                };
                state.record_error(message);
                match out {
                    Some(n) => {
                        if state.should_send_webhook(now_ms) {
                            Some(n)
                        } else {
                            None
                        }
                    },
                    None => None,
                }
            },
        }
    }
}

} // verus!
