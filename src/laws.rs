use crate::matcher::{first_hit, is_first_hit, pattern_hits};
use crate::parser::{
    alert_of, alerting_name, structured_alert, structured_message, LogRecord,
};
use crate::state::{throttle_after, throttle_open, COOLDOWN_MS};
use crate::text::lower_of;
use vstd::prelude::*;

verus! {

/// A line that is not a severe structured line, and whose first matching
/// rule (if any) is not named as an error or panic rule, raises no alert;
/// `process_line` then leaves the alert count and last alert unchanged.
pub proof fn benign_line_raises_no_alert(
    ps: Seq<Seq<char>>,
    names: Seq<Seq<char>>,
    line: Seq<char>,
    record: Option<LogRecord>,
)
    requires
        !structured_alert(line, record),
        forall|i: int| first_hit(ps, line) == Some(i) ==> !alerting_name(lower_of(names[i])),
    ensures
        alert_of(ps, names, line, record) is None,
{
}

/// A structured line whose level (or severity) lower-cases to `error`,
/// `panic` or `fatal` raises the alert `structured: ` followed by its
/// `message`, else `msg`, else the raw line, whatever the rules are.
pub proof fn severe_record_alert(
    ps: Seq<Seq<char>>,
    names: Seq<Seq<char>>,
    line: Seq<char>,
    record: LogRecord,
)
    requires
        structured_alert(line, Some(record)),
    ensures
        alert_of(ps, names, line, Some(record)) == Some(structured_message(record, line)),
{
}

/// When several rules match a line, the one declared first decides: the
/// reported rule matches, is declared no later than any matching rule, and
/// no rule before it matches.
pub proof fn lowest_rule_wins(ps: Seq<Seq<char>>, line: Seq<char>, i: int)
    requires
        0 <= i < ps.len(),
        pattern_hits(ps[i], line),
    ensures
        first_hit(ps, line) is Some,
        first_hit(ps, line)->0 <= i,
        pattern_hits(ps[first_hit(ps, line)->0], line),
        forall|j: int| 0 <= j < first_hit(ps, line)->0 ==> !pattern_hits(#[trigger] ps[j], line),
    decreases i,
{
    if exists|j: int| 0 <= j < i && pattern_hits(#[trigger] ps[j], line) {
        let j = choose|j: int| 0 <= j < i && pattern_hits(#[trigger] ps[j], line);
        lowest_rule_wins(ps, line, j);
    } else {
        assert(is_first_hit(ps, line, i));
    }
}

/// A line that is not a severe structured line and whose first matching
/// rule is named as an error or panic rule raises the raw line as alert.
pub proof fn error_rule_alert(
    ps: Seq<Seq<char>>,
    names: Seq<Seq<char>>,
    line: Seq<char>,
    record: Option<LogRecord>,
    i: int,
)
    requires
        !structured_alert(line, record),
        first_hit(ps, line) == Some(i),
        alerting_name(lower_of(names[i])),
    ensures
        alert_of(ps, names, line, record) == Some(line),
{
}

/// The first notification always passes the throttle.
pub proof fn first_notification_passes(now: u64)
    ensures
        throttle_open(None, now),
        throttle_after(None, now) == Some(now),
{
}

/// After a notification passes at time `t`, a later one at `now` passes
/// exactly when more than the cooldown has elapsed since `t`; one that is
/// refused leaves the throttle as it was.
pub proof fn cooldown_holds(last: Option<u64>, t: u64, now: u64)
    requires
        throttle_open(last, t),
        t <= now,
    ensures
        throttle_open(throttle_after(last, t), now) <==> now - t > COOLDOWN_MS,
        !throttle_open(throttle_after(last, t), now) ==> throttle_after(throttle_after(last, t), now)
            == Some(t),
        throttle_open(throttle_after(last, t), now) ==> throttle_after(throttle_after(last, t), now) == Some(
            now,
        ),
{
}

} // verus!
