//! The log lines written for connections and commands; the caller hands
//! them to the logger.
use crate::text::{chars_of, extend_chars, string_from_chars};
use vstd::prelude::*;

verus! {

/// The log line of a client connection.
pub fn log_connection(client_addr: &str) -> (line: String)
    ensures
        line@ == "Client connected: "@ + client_addr@,
{
    let mut v = chars_of("Client connected: ");
    extend_chars(&mut v, &chars_of(client_addr));
    string_from_chars(&v)
}

/// The log line of a command a client executed.
pub fn log_command(client_addr: &str, command: &str) -> (line: String)
    ensures
        line@ == "Client "@ + client_addr@ + " executed: "@ + command@,
{
    let mut v = chars_of("Client ");
    extend_chars(&mut v, &chars_of(client_addr));
    extend_chars(&mut v, &chars_of(" executed: "));
    extend_chars(&mut v, &chars_of(command));
    string_from_chars(&v)
}

} // verus!
