//! A reduced command set of the lite server: its parser and the login
//! check its handlers share.
pub mod parser;
pub mod utils;

pub use parser::{parse_command, Command, CommandResult};
