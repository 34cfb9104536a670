//! Parsing of the reduced command set; anything else is kept as the
//! trimmed line.
use crate::net::SocketAddress;
use crate::protocol::commands::{command_arg, command_key, is_keyword, split_command_line};
use crate::text::{chars_of, string_from_chars, trim, trim_chars};
use vstd::prelude::*;

verus! {

/// A command of the reduced set.
#[derive(Debug, PartialEq)]
pub enum Command {
    QUIT,
    LIST,
    LOGOUT,
    PWD,
    CWD(String),
    USER(String),
    PASS(String),
    RETR(String),
    STOR(String),
    PORT(String),
    PASV(),
    UNKNOWN(String),
}

/// The mathematical value of a [`Command`].
pub enum ReducedCommandView {
    QUIT,
    LIST,
    LOGOUT,
    PWD,
    CWD(Seq<char>),
    USER(Seq<char>),
    PASS(Seq<char>),
    RETR(Seq<char>),
    STOR(Seq<char>),
    PORT(Seq<char>),
    PASV,
    UNKNOWN(Seq<char>),
}

impl View for Command {
    type V = ReducedCommandView;

    open spec fn view(&self) -> ReducedCommandView {
        match self {
            Command::QUIT => ReducedCommandView::QUIT,
            Command::LIST => ReducedCommandView::LIST,
            Command::LOGOUT => ReducedCommandView::LOGOUT,
            Command::PWD => ReducedCommandView::PWD,
            Command::CWD(a) => ReducedCommandView::CWD(a@),
            Command::USER(a) => ReducedCommandView::USER(a@),
            Command::PASS(a) => ReducedCommandView::PASS(a@),
            Command::RETR(a) => ReducedCommandView::RETR(a@),
            Command::STOR(a) => ReducedCommandView::STOR(a@),
            Command::PORT(a) => ReducedCommandView::PORT(a@),
            Command::PASV() => ReducedCommandView::PASV,
            Command::UNKNOWN(a) => ReducedCommandView::UNKNOWN(a@),
        }
    }
}

/// What the session does after a command of the reduced set.
#[derive(Debug, PartialEq)]
pub enum CommandResult {
    QUIT,
    CONTINUE,
    CONNECT(Option<SocketAddress>),
    STOR(String),
    RETR(String),
    LIST,
}

/// The command of the reduced set a raw line denotes: the first word,
/// matched case-insensitively, names the command and the trimmed rest is
/// its argument; an unknown word keeps the whole trimmed line.
pub open spec fn reduced_parse_spec(raw: Seq<char>) -> ReducedCommandView {
    let key = command_key(raw);
    let arg = command_arg(raw);
    if key == "QUIT"@ || key == "Q"@ {
        ReducedCommandView::QUIT
    } else if key == "LIST"@ {
        ReducedCommandView::LIST
    } else if key == "LOGOUT"@ {
        ReducedCommandView::LOGOUT
    } else if key == "PWD"@ {
        ReducedCommandView::PWD
    } else if key == "CWD"@ {
        ReducedCommandView::CWD(arg)
    } else if key == "USER"@ {
        ReducedCommandView::USER(arg)
    } else if key == "PASS"@ {
        ReducedCommandView::PASS(arg)
    } else if key == "RETR"@ {
        ReducedCommandView::RETR(arg)
    } else if key == "STOR"@ {
        ReducedCommandView::STOR(arg)
    } else if key == "PORT"@ {
        ReducedCommandView::PORT(arg)
    } else if key == "PASV"@ {
        ReducedCommandView::PASV
    } else {
        ReducedCommandView::UNKNOWN(trim(raw))
    }
}

/// Parses a raw command line.
pub fn parse_command(raw: &str) -> (cmd: Command)
    ensures
        cmd@ == reduced_parse_spec(raw@),
{
    let (key, arg) = split_command_line(raw);
    if is_keyword(&key, "QUIT") || is_keyword(&key, "Q") {
        Command::QUIT
    } else if is_keyword(&key, "LIST") {
        Command::LIST
    } else if is_keyword(&key, "LOGOUT") {
        Command::LOGOUT
    } else if is_keyword(&key, "PWD") {
        Command::PWD
    } else if is_keyword(&key, "CWD") {
        Command::CWD(string_from_chars(&arg))
    } else if is_keyword(&key, "USER") {
        Command::USER(string_from_chars(&arg))
    } else if is_keyword(&key, "PASS") {
        Command::PASS(string_from_chars(&arg))
    } else if is_keyword(&key, "RETR") {
        Command::RETR(string_from_chars(&arg))
    } else if is_keyword(&key, "STOR") {
        Command::STOR(string_from_chars(&arg))
    } else if is_keyword(&key, "PORT") {
        Command::PORT(string_from_chars(&arg))
    } else if is_keyword(&key, "PASV") {
        Command::PASV()
    } else {
        Command::UNKNOWN(string_from_chars(&trim_chars(&chars_of(raw))))
    }
}

} // verus!
