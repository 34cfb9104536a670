//! Commands of the lite server, their outcome, and the parser.
use crate::protocol::commands::{command_arg, command_key, is_keyword, split_command_line, CommandView};
use crate::text::string_from_chars;
use vstd::prelude::*;

verus! {

/// An FTP command parsed from client input.
#[derive(Debug, PartialEq)]
pub enum Command {
    QUIT,
    LIST,
    LOGOUT,
    PWD,
    CWD(String),
    USER(String),
    PASS(String),
    RETR(String),
    STOR(String),
    DEL(String),
    PORT(String),
    PASV(),
    UNKNOWN,
    RAX,
}

impl View for Command {
    type V = CommandView;

    open spec fn view(&self) -> CommandView {
        match self {
            Command::QUIT => CommandView::QUIT,
            Command::LIST => CommandView::LIST,
            Command::LOGOUT => CommandView::LOGOUT,
            Command::PWD => CommandView::PWD,
            Command::CWD(a) => CommandView::CWD(a@),
            Command::USER(a) => CommandView::USER(a@),
            Command::PASS(a) => CommandView::PASS(a@),
            Command::RETR(a) => CommandView::RETR(a@),
            Command::STOR(a) => CommandView::STOR(a@),
            Command::DEL(a) => CommandView::DEL(a@),
            Command::PORT(a) => CommandView::PORT(a@),
            Command::PASV() => CommandView::PASV,
            Command::UNKNOWN => CommandView::UNKNOWN,
            Command::RAX => CommandView::RAX,
        }
    }
}

/// The outcome status of executing a command.
#[derive(Debug, Clone)]
pub enum CommandStatus {
    Success,
    Failure(String),
    CloseConnection,
}

/// Data that comes with a command's result: a directory listing.
#[derive(Debug, Clone)]
pub enum CommandData {
    DirectoryListing(Vec<String>),
}

/// The full result of executing a command: status, reply line, and data.
#[derive(Debug, Clone)]
pub struct CommandResult {
    pub status: CommandStatus,
    pub message: Option<String>,
    pub data: Option<CommandData>,
}

/// The command a raw line denotes: the first word, matched
/// case-insensitively, names the command, and the rest, trimmed, is its
/// argument (possibly empty).
pub open spec fn lite_parse_spec(raw: Seq<char>) -> CommandView {
    let key = command_key(raw);
    let arg = command_arg(raw);
    if key == "QUIT"@ || key == "Q"@ {
        CommandView::QUIT
    } else if key == "LIST"@ {
        CommandView::LIST
    } else if key == "LOGOUT"@ {
        CommandView::LOGOUT
    } else if key == "PWD"@ {
        CommandView::PWD
    } else if key == "CWD"@ {
        CommandView::CWD(arg)
    } else if key == "USER"@ {
        CommandView::USER(arg)
    } else if key == "PASS"@ {
        CommandView::PASS(arg)
    } else if key == "RETR"@ {
        CommandView::RETR(arg)
    } else if key == "STOR"@ {
        CommandView::STOR(arg)
    } else if key == "DEL"@ {
        CommandView::DEL(arg)
    } else if key == "PORT"@ {
        CommandView::PORT(arg)
    } else if key == "PASV"@ {
        CommandView::PASV
    } else if key == "RAX"@ {
        CommandView::RAX
    } else {
        CommandView::UNKNOWN
    }
}

/// Parses a raw command line received from a client.
pub fn parse_command(raw: &str) -> (cmd: Command)
    ensures
        cmd@ == lite_parse_spec(raw@),
{
    let (key, arg) = split_command_line(raw);
    if is_keyword(&key, "QUIT") || is_keyword(&key, "Q") {
        Command::QUIT
    } else if is_keyword(&key, "LIST") {
        Command::LIST
    } else if is_keyword(&key, "LOGOUT") {
        Command::LOGOUT
    } else if is_keyword(&key, "PWD") {
        Command::PWD
    } else if is_keyword(&key, "CWD") {
        Command::CWD(string_from_chars(&arg))
    } else if is_keyword(&key, "USER") {
        Command::USER(string_from_chars(&arg))
    } else if is_keyword(&key, "PASS") {
        Command::PASS(string_from_chars(&arg))
    } else if is_keyword(&key, "RETR") {
        Command::RETR(string_from_chars(&arg))
    } else if is_keyword(&key, "STOR") {
        Command::STOR(string_from_chars(&arg))
    } else if is_keyword(&key, "DEL") {
        Command::DEL(string_from_chars(&arg))
    } else if is_keyword(&key, "PORT") {
        Command::PORT(string_from_chars(&arg))
    } else if is_keyword(&key, "PASV") {
        Command::PASV()
    } else if is_keyword(&key, "RAX") {
        Command::RAX
    } else {
        Command::UNKNOWN
    }
}

} // verus!
