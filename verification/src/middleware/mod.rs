//! Connection middleware: rate limiting, security checks and the log lines
//! of connections and commands.
pub mod logging;
pub mod rate_limit;
pub mod security;
