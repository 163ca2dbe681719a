//! Real-time log monitoring core: rule compilation, per-line classification,
//! running statistics and a cooldown throttle for outbound notifications.
pub mod config;
pub mod laws;
pub mod matcher;
pub mod notify;
pub mod parser;
pub mod state;
pub mod text;
