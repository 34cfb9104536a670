//! The FTP control protocol: command parsing, reply formatting, the
//! per-session command handlers and the translation of domain results into
//! replies.
pub mod commands;
pub mod handlers;
pub mod replies;
pub mod responses;
pub mod translators;

pub use commands::{parse_command, Command, CommandResult, CommandStatus};
pub use handlers::{handle_auth_command, handle_command};
