use vstd::prelude::*;

verus! {

/// Minimum time, in milliseconds, between two outbound notifications.
pub const COOLDOWN_MS: u64 = 10000;

/// Whether the throttle lets a notification through at time `now`, given the
/// time of the last one sent (if any). Times are milliseconds since the
/// state was created.
pub open spec fn throttle_open(last_sent: Option<u64>, now: u64) -> bool {
    match last_sent {
        None => true,
        Some(t) => now - t > COOLDOWN_MS,
    }
}

/// The throttle's record of the last notification after a check at time `now`.
pub open spec fn throttle_after(last_sent: Option<u64>, now: u64) -> Option<u64> {
    if throttle_open(last_sent, now) {
        Some(now)
    } else {
        last_sent
    }
}

/// A read-only copy of the counters and the last alert, for a dashboard.
pub struct StatsSnapshot {
    pub total_lines: u64,
    pub total_errors: u64,
    pub last_error: Option<String>,
}

/// Aggregate statistics of the monitor and the notification throttle's state.
///
/// All times are milliseconds elapsed since the state was created; the
/// caller supplies them from a monotonic clock.
pub struct AppState {
    pub total_lines: u64,
    pub total_errors: u64,
    pub last_error: Option<String>,
    pub webhook_url: Option<String>,
    pub last_webhook_sent: Option<u64>,
}

impl AppState {
    /// Fresh statistics: no lines, no alerts, no notification sent yet.
    pub fn new(webhook_url: Option<String>) -> (r: AppState)
        ensures
            r.total_lines == 0,
            r.total_errors == 0,
            r.last_error is None,
            r.webhook_url == webhook_url,
            r.last_webhook_sent is None,
    {
        AppState {
            total_lines: 0,
            total_errors: 0,
            last_error: None,
            webhook_url,
            last_webhook_sent: None,
        }
    }

    /// Cooldown check: lets the first notification through, and afterwards
    /// one whose time is more than `COOLDOWN_MS` past the last one let
    /// through. The time is recorded only when the answer is `true`.
    pub fn should_send_webhook(&mut self, now_ms: u64) -> (r: bool)
        ensures
            r == throttle_open(old(self).last_webhook_sent, now_ms),
            final(self).last_webhook_sent == throttle_after(old(self).last_webhook_sent, now_ms),
            final(self).total_lines == old(self).total_lines,
            final(self).total_errors == old(self).total_errors,
            final(self).last_error == old(self).last_error,
            final(self).webhook_url == old(self).webhook_url,
    {
        let open = match self.last_webhook_sent {
            None => true,
            Some(t) => now_ms >= t && now_ms - t > COOLDOWN_MS,
        };
        if open {
            self.last_webhook_sent = Some(now_ms);
        }
        open
    }

    /// The current counters and last alert.
    pub fn snapshot(&self) -> (r: StatsSnapshot)
        ensures
            r.total_lines == self.total_lines,
            r.total_errors == self.total_errors,
            r.last_error == self.last_error,
    {
        StatsSnapshot {
            total_lines: self.total_lines,
            total_errors: self.total_errors,
            last_error: match &self.last_error {
                Some(m) => Some(m.clone()),
                None => None,
            },
        }
    }

    /// Counts one more processed line.
    pub fn increment_lines(&mut self)
        requires
            old(self).total_lines < u64::MAX,
        ensures
            final(self).total_lines == old(self).total_lines + 1,
            final(self).total_errors == old(self).total_errors,
            final(self).last_error == old(self).last_error,
            final(self).webhook_url == old(self).webhook_url,
            final(self).last_webhook_sent == old(self).last_webhook_sent,
    {
        self.total_lines = self.total_lines + 1;
    }

    /// Counts one more alert and makes `message` the last alert.
    pub fn record_error(&mut self, message: String)
        requires
            old(self).total_errors < u64::MAX,
        ensures
            final(self).total_errors == old(self).total_errors + 1,
            final(self).last_error == Some(message),
            final(self).total_lines == old(self).total_lines,
            final(self).webhook_url == old(self).webhook_url,
            final(self).last_webhook_sent == old(self).last_webhook_sent,
    {
        self.total_errors = self.total_errors + 1;
        self.last_error = Some(message);
    }
}

} // verus!
