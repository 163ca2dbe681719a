use vstd::prelude::*;

verus! {

/// A named pattern from the configuration.
///
/// `threshold` is carried for compatibility with existing configuration
/// files; no classification or notification decision reads it.
pub struct LogRule {
    pub name: String,
    pub pattern: String,
    pub threshold: u64,
}

/// The monitor's configuration: ordered rules, the dashboard's polling
/// interval, and an optional notification endpoint.
pub struct AppConfig {
    pub rules: Vec<LogRule>,
    pub polling_interval_ms: u64,
    pub webhook_url: Option<String>,
}

impl LogRule {
    /// A rule from its three parts.
    pub fn new(name: &str, pattern: &str, threshold: u64) -> (r: LogRule)
        ensures
            r.name@ == name@,
            r.pattern@ == pattern@,
            r.threshold == threshold,
    {
        LogRule { name: String::from_str(name), pattern: String::from_str(pattern), threshold }
    }
}

impl Clone for LogRule {
    fn clone(&self) -> (r: LogRule)
        ensures
            r.name@ == self.name@,
            r.pattern@ == self.pattern@,
            r.threshold == self.threshold,
    {
        LogRule { name: self.name.clone(), pattern: self.pattern.clone(), threshold: self.threshold }
    }
}

/// Polling interval used when no configuration file is present.
pub const DEFAULT_POLLING_INTERVAL_MS: u64 = 100;

impl Default for AppConfig {
    /// Two case-insensitive rules, `Error` on `error` and `Panic` on `panic`,
    /// each with threshold 1; a 100 ms polling interval; no endpoint.
    fn default() -> (r: AppConfig)
        ensures
            r.rules@.len() == 2,
            r.rules@[0].name@ == "Error"@,
            r.rules@[0].pattern@ == "(?i)error"@,
            r.rules@[0].threshold == 1,
            r.rules@[1].name@ == "Panic"@,
            r.rules@[1].pattern@ == "(?i)panic"@,
            r.rules@[1].threshold == 1,
            r.polling_interval_ms == DEFAULT_POLLING_INTERVAL_MS,
            r.webhook_url is None,
    {
        let mut rules: Vec<LogRule> = Vec::new();
        rules.push(LogRule::new("Error", "(?i)error", 1));
        rules.push(LogRule::new("Panic", "(?i)panic", 1));
        AppConfig { rules, polling_interval_ms: DEFAULT_POLLING_INTERVAL_MS, webhook_url: None }
    }
}

} // verus!
