//! The minimal command set: `QUIT`, `USER`, `PASS` and `LIST`, matched on
//! the exact trimmed line; anything else is kept as it came.
use crate::text::{chars_eq, chars_of, slice_range, string_from_chars, trim, trim_chars};
use vstd::prelude::*;

verus! {

/// A command of the minimal set.
#[derive(Debug, PartialEq)]
pub enum Command {
    Quit,
    User(String),
    Pass(String),
    List,
    Unknown(String),
}

/// The mathematical value of a [`Command`].
pub enum MinimalCommandView {
    Quit,
    User(Seq<char>),
    Pass(Seq<char>),
    List,
    Unknown(Seq<char>),
}

impl View for Command {
    type V = MinimalCommandView;

    open spec fn view(&self) -> MinimalCommandView {
        match self {
            Command::Quit => MinimalCommandView::Quit,
            Command::User(u) => MinimalCommandView::User(u@),
            Command::Pass(p) => MinimalCommandView::Pass(p@),
            Command::List => MinimalCommandView::List,
            Command::Unknown(r) => MinimalCommandView::Unknown(r@),
        }
    }
}

/// What the session does after a command of the minimal set.
#[derive(Debug, PartialEq)]
pub enum CommandResult {
    Quit,
    Wait,
    Continue,
}

/// Whether `s` starts with `prefix`.
pub open spec fn starts_with(s: Seq<char>, prefix: Seq<char>) -> bool {
    s.len() >= prefix.len() && s.subrange(0, prefix.len() as int) == prefix
}

/// The command of the minimal set a raw line denotes. The line is trimmed;
/// `QUIT` and `q` quit, `LIST` lists, a line starting with `USER ` or
/// `PASS ` carries the trimmed rest as its argument, and anything else is
/// unknown.
pub open spec fn minimal_parse_spec(raw: Seq<char>) -> MinimalCommandView {
    let t = trim(raw);
    if t == "QUIT"@ || t == "q"@ {
        MinimalCommandView::Quit
    } else if starts_with(t, "USER "@) {
        MinimalCommandView::User(trim(t.subrange(5, t.len() as int)))
    } else if starts_with(t, "PASS "@) {
        MinimalCommandView::Pass(trim(t.subrange(5, t.len() as int)))
    } else if t == "LIST"@ {
        MinimalCommandView::List
    } else {
        MinimalCommandView::Unknown(t)
    }
}

fn has_prefix(s: &Vec<char>, prefix: &str) -> (b: bool)
    ensures
        b == starts_with(s@, prefix@),
{
    let p = chars_of(prefix);
    if s.len() < p.len() {
        return false;
    }
    chars_eq(&slice_range(s, 0, p.len()), &p)
}

/// Parses a raw command line of the minimal set.
pub fn parse_command(raw: &str) -> (cmd: Command)
    ensures
        cmd@ == minimal_parse_spec(raw@),
{
    let t = trim_chars(&chars_of(raw));
    proof {
        reveal_strlit("USER ");
        reveal_strlit("PASS ");
    }
    if chars_eq(&t, &chars_of("QUIT")) || chars_eq(&t, &chars_of("q")) {
        Command::Quit
    } else if has_prefix(&t, "USER ") {
        Command::User(string_from_chars(&trim_chars(&slice_range(&t, 5, t.len()))))
    } else if has_prefix(&t, "PASS ") {
        Command::Pass(string_from_chars(&trim_chars(&slice_range(&t, 5, t.len()))))
    } else if chars_eq(&t, &chars_of("LIST")) {
        Command::List
    } else {
        Command::Unknown(string_from_chars(&t))
    }
}

} // verus!
