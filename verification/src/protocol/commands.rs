//! FTP commands as received on the control connection, the outcome of
//! executing them, and the parser that turns a raw line into a command.
use crate::text::{
    ascii_upper_seq, is_ws, trim_end, trim_start, chars_eq, chars_of, find_ws, slice_range, string_from_chars,
    to_ascii_upper_chars, trim, trim_chars, ws_index_from,
};
use vstd::prelude::*;

verus! {

/// An FTP command parsed from client input. Commands that need an argument
/// carry it as a `String`.
#[derive(Debug, PartialEq)]
pub enum Command {
    QUIT,
    LIST,
    LOGOUT,
    PWD,
    CWD(String),
    USER(String),
    PASS(String),
    RETR(String),
    STOR(String),
    DEL(String),
    PORT(String),
    PASV,
    UNKNOWN,
    RAX,
}

/// The mathematical value of a [`Command`]: arguments as character sequences.
pub enum CommandView {
    QUIT,
    LIST,
    LOGOUT,
    PWD,
    CWD(Seq<char>),
    USER(Seq<char>),
    PASS(Seq<char>),
    RETR(Seq<char>),
    STOR(Seq<char>),
    DEL(Seq<char>),
    PORT(Seq<char>),
    PASV,
    UNKNOWN,
    RAX,
}

impl View for Command {
    type V = CommandView;

    open spec fn view(&self) -> CommandView {
        match self {
            Command::QUIT => CommandView::QUIT,
            Command::LIST => CommandView::LIST,
            Command::LOGOUT => CommandView::LOGOUT,
            Command::PWD => CommandView::PWD,
            Command::CWD(a) => CommandView::CWD(a@),
            Command::USER(a) => CommandView::USER(a@),
            Command::PASS(a) => CommandView::PASS(a@),
            Command::RETR(a) => CommandView::RETR(a@),
            Command::STOR(a) => CommandView::STOR(a@),
            Command::DEL(a) => CommandView::DEL(a@),
            Command::PORT(a) => CommandView::PORT(a@),
            Command::PASV => CommandView::PASV,
            Command::UNKNOWN => CommandView::UNKNOWN,
            Command::RAX => CommandView::RAX,
        }
    }
}

/// The outcome status of executing a command.
#[derive(Debug, Clone)]
pub enum CommandStatus {
    Success,
    Failure(String),
    CloseConnection,
}

/// The full result of executing a command: its status and the reply line,
/// if any, to send to the client.
#[derive(Debug, Clone)]
pub struct CommandResult {
    pub status: CommandStatus,
    pub message: Option<String>,
}

/// The mathematical value of a [`CommandStatus`].
pub enum StatusView {
    Success,
    Failure(Seq<char>),
    CloseConnection,
}

/// The mathematical value of a [`CommandResult`].
pub struct CommandResultView {
    pub status: StatusView,
    pub message: Option<Seq<char>>,
}

impl View for CommandStatus {
    type V = StatusView;

    open spec fn view(&self) -> StatusView {
        match self {
            CommandStatus::Success => StatusView::Success,
            CommandStatus::Failure(r) => StatusView::Failure(r@),
            CommandStatus::CloseConnection => StatusView::CloseConnection,
        }
    }
}

impl View for CommandResult {
    type V = CommandResultView;

    open spec fn view(&self) -> CommandResultView {
        CommandResultView {
            status: self.status@,
            message: match self.message {
                Some(m) => Some(m@),
                None => None,
            },
        }
    }
}

/// A successful result with a reply line.
pub open spec fn success_reply(message: Seq<char>) -> CommandResultView {
    CommandResultView { status: StatusView::Success, message: Some(message) }
}

/// A failed result with the reason and a reply line.
pub open spec fn failure_reply(reason: Seq<char>, message: Seq<char>) -> CommandResultView {
    CommandResultView { status: StatusView::Failure(reason), message: Some(message) }
}

/// A failed result whose reply line is the reason behind the code `code`.
pub open spec fn coded_failure(code: Seq<char>, reason: Seq<char>) -> CommandResultView {
    failure_reply(reason, code + seq![' '] + reason + seq!['\r', '\n'])
}

/// Builds a successful result with the reply line `message`.
pub fn success(message: &str) -> (r: CommandResult)
    ensures
        r@ == success_reply(message@),
{
    CommandResult { status: CommandStatus::Success, message: Some(string_from_chars(&chars_of(message))) }
}

/// Builds a failed result with the reason and the reply line.
pub fn failure(reason: &str, message: &str) -> (r: CommandResult)
    ensures
        r@ == failure_reply(reason@, message@),
{
    CommandResult {
        status: CommandStatus::Failure(string_from_chars(&chars_of(reason))),
        message: Some(string_from_chars(&chars_of(message))),
    }
}

/// Builds a failed result whose reply line is `code`, a space, the reason,
/// and CRLF.
pub fn coded(code: &str, reason: &[char]) -> (r: CommandResult)
    ensures
        r@ == coded_failure(code@, reason@),
{
    let mut m = chars_of(code);
    m.push(' ');
    crate::text::extend_chars(&mut m, reason);
    m.push('\r');
    m.push('\n');
    assert(m@ =~= code@ + seq![' '] + reason@ + seq!['\r', '\n']);
    CommandResult {
        status: CommandStatus::Failure(string_from_chars(reason)),
        message: Some(string_from_chars(&m)),
    }
}

/// The keyword of a trimmed command line (everything before the first
/// whitespace character) and the remainder after that whitespace character,
/// as `splitn(2, char::is_whitespace)` yields them.
pub open spec fn split_keyword(t: Seq<char>) -> (Seq<char>, Seq<char>) {
    let k = ws_index_from(t, 0);
    (
        t.subrange(0, k),
        if k < t.len() {
            t.subrange(k + 1, t.len() as int)
        } else {
            Seq::empty()
        },
    )
}

/// The command that a raw client line denotes. The keyword is matched
/// case-insensitively (ASCII); commands that need an argument denote
/// `UNKNOWN` when the trimmed argument is empty.
pub open spec fn parse_command_spec(raw: Seq<char>) -> CommandView {
    let (word, rest) = split_keyword(trim(raw));
    let key = ascii_upper_seq(word);
    let arg = trim(rest);
    if key == seq!['Q', 'U', 'I', 'T'] || key == seq!['Q'] {
        CommandView::QUIT
    } else if key == seq!['L', 'I', 'S', 'T'] {
        CommandView::LIST
    } else if key == seq!['L', 'O', 'G', 'O', 'U', 'T'] {
        CommandView::LOGOUT
    } else if key == seq!['P', 'W', 'D'] {
        CommandView::PWD
    } else if key == seq!['C', 'W', 'D'] && arg.len() > 0 {
        CommandView::CWD(arg)
    } else if key == seq!['U', 'S', 'E', 'R'] && arg.len() > 0 {
        CommandView::USER(arg)
    } else if key == seq!['P', 'A', 'S', 'S'] && arg.len() > 0 {
        CommandView::PASS(arg)
    } else if key == seq!['R', 'E', 'T', 'R'] && arg.len() > 0 {
        CommandView::RETR(arg)
    } else if key == seq!['S', 'T', 'O', 'R'] && arg.len() > 0 {
        CommandView::STOR(arg)
    } else if key == seq!['D', 'E', 'L'] && arg.len() > 0 {
        CommandView::DEL(arg)
    } else if key == seq!['P', 'O', 'R', 'T'] && arg.len() > 0 {
        CommandView::PORT(arg)
    } else if key == seq!['P', 'A', 'S', 'V'] {
        CommandView::PASV
    } else if key == seq!['R', 'A', 'X'] {
        CommandView::RAX
    } else {
        CommandView::UNKNOWN
    }
}

/// The keyword of a command line, in ASCII upper case.
pub open spec fn command_key(raw: Seq<char>) -> Seq<char> {
    ascii_upper_seq(split_keyword(trim(raw)).0)
}

/// The argument of a command line: what follows the keyword, trimmed.
pub open spec fn command_arg(raw: Seq<char>) -> Seq<char> {
    trim(split_keyword(trim(raw)).1)
}

/// Splits a command line into its upper-cased keyword and its argument.
pub fn split_command_line(raw: &str) -> (r: (Vec<char>, Vec<char>))
    ensures
        r.0@ == command_key(raw@),
        r.1@ == command_arg(raw@),
{
    let chars = chars_of(raw);
    let t = trim_chars(&chars);
    let k = find_ws(&t, 0);
    let word = slice_range(&t, 0, k);
    let rest = if k < t.len() {
        slice_range(&t, k + 1, t.len())
    } else {
        Vec::new()
    };
    proof {
        let (w, r) = split_keyword(t@);
        assert(w == word@);
        assert(r =~= rest@);
    }
    (to_ascii_upper_chars(&word), trim_chars(&rest))
}

/// Whether a keyword is the given word.
pub fn is_keyword(key: &[char], word: &str) -> (b: bool)
    ensures
        b == (key@ == word@),
{
    chars_eq(key, &chars_of(word))
}

/// Parses a raw command line received from a client into a [`Command`].
pub fn parse_command(raw: &str) -> (cmd: Command)
    ensures
        cmd@ == parse_command_spec(raw@),
{
    let chars = chars_of(raw);
    let t = trim_chars(&chars);
    let k = find_ws(&t, 0);
    let word = slice_range(&t, 0, k);
    let rest = if k < t.len() {
        slice_range(&t, k + 1, t.len())
    } else {
        Vec::new()
    };
    proof {
        let (w, r) = split_keyword(t@);
        assert(w == word@);
        assert(r =~= rest@);
    }
    let key = to_ascii_upper_chars(&word);
    let arg = trim_chars(&rest);
    let kw_quit = ['Q', 'U', 'I', 'T'];
    assert(kw_quit@ =~= seq!['Q', 'U', 'I', 'T']);
    let kw_q = ['Q'];
    assert(kw_q@ =~= seq!['Q']);
    let kw_list = ['L', 'I', 'S', 'T'];
    assert(kw_list@ =~= seq!['L', 'I', 'S', 'T']);
    let kw_logout = ['L', 'O', 'G', 'O', 'U', 'T'];
    assert(kw_logout@ =~= seq!['L', 'O', 'G', 'O', 'U', 'T']);
    let kw_pwd = ['P', 'W', 'D'];
    assert(kw_pwd@ =~= seq!['P', 'W', 'D']);
    let kw_cwd = ['C', 'W', 'D'];
    assert(kw_cwd@ =~= seq!['C', 'W', 'D']);
    let kw_user = ['U', 'S', 'E', 'R'];
    assert(kw_user@ =~= seq!['U', 'S', 'E', 'R']);
    let kw_pass = ['P', 'A', 'S', 'S'];
    assert(kw_pass@ =~= seq!['P', 'A', 'S', 'S']);
    let kw_retr = ['R', 'E', 'T', 'R'];
    assert(kw_retr@ =~= seq!['R', 'E', 'T', 'R']);
    let kw_stor = ['S', 'T', 'O', 'R'];
    assert(kw_stor@ =~= seq!['S', 'T', 'O', 'R']);
    let kw_del = ['D', 'E', 'L'];
    assert(kw_del@ =~= seq!['D', 'E', 'L']);
    let kw_port = ['P', 'O', 'R', 'T'];
    assert(kw_port@ =~= seq!['P', 'O', 'R', 'T']);
    let kw_pasv = ['P', 'A', 'S', 'V'];
    assert(kw_pasv@ =~= seq!['P', 'A', 'S', 'V']);
    let kw_rax = ['R', 'A', 'X'];
    assert(kw_rax@ =~= seq!['R', 'A', 'X']);
    let has_arg = arg.len() > 0;
    if chars_eq(&key, &kw_quit) || chars_eq(&key, &kw_q) {
        Command::QUIT
    } else if chars_eq(&key, &kw_list) {
        Command::LIST
    } else if chars_eq(&key, &kw_logout) {
        Command::LOGOUT
    } else if chars_eq(&key, &kw_pwd) {
        Command::PWD
    } else if chars_eq(&key, &kw_cwd) && has_arg {
        Command::CWD(string_from_chars(&arg))
    } else if chars_eq(&key, &kw_user) && has_arg {
        Command::USER(string_from_chars(&arg))
    } else if chars_eq(&key, &kw_pass) && has_arg {
        Command::PASS(string_from_chars(&arg))
    } else if chars_eq(&key, &kw_retr) && has_arg {
        Command::RETR(string_from_chars(&arg))
    } else if chars_eq(&key, &kw_stor) && has_arg {
        Command::STOR(string_from_chars(&arg))
    } else if chars_eq(&key, &kw_del) && has_arg {
        Command::DEL(string_from_chars(&arg))
    } else if chars_eq(&key, &kw_port) && has_arg {
        Command::PORT(string_from_chars(&arg))
    } else if chars_eq(&key, &kw_pasv) {
        Command::PASV
    } else if chars_eq(&key, &kw_rax) {
        Command::RAX
    } else {
        Command::UNKNOWN
    }
}

proof fn lemma_trim_start_head(s: Seq<char>)
    ensures
        trim_start(s).len() == 0 || !is_ws(trim_start(s)[0]),
    decreases s.len(),
{
    if s.len() > 0 && is_ws(s[0]) {
        lemma_trim_start_head(s.drop_first());
    }
}

proof fn lemma_trim_end_shape(s: Seq<char>)
    ensures
        trim_end(s).len() <= s.len(),
        trim_end(s) == s.take(trim_end(s).len() as int),
        trim_end(s).len() == 0 || !is_ws(trim_end(s).last()),
    decreases s.len(),
{
    if s.len() > 0 && is_ws(s.last()) {
        lemma_trim_end_shape(s.drop_last());
        assert(s.drop_last().take(trim_end(s).len() as int) =~= s.take(trim_end(s).len() as int));
    } else {
        assert(s.take(s.len() as int) =~= s);
    }
}

/// Trimming twice is trimming once.
pub proof fn lemma_trim_idempotent(s: Seq<char>)
    ensures
        trim(trim(s)) == trim(s),
{
    let u = trim_start(s);
    let t = trim_end(u);
    lemma_trim_start_head(s);
    lemma_trim_end_shape(u);
    if t.len() > 0 {
        assert(t[0] == u[0]);
    }
    assert(trim_start(t) == t);
    assert(trim_end(t) == t);
}

/// A command line is recognised regardless of the whitespace around it:
/// trimming it first does not change the command it denotes.
pub proof fn law_parse_ignores_surrounding_whitespace(raw: Seq<char>)
    ensures
        parse_command_spec(trim(raw)) == parse_command_spec(raw),
{
    lemma_trim_idempotent(raw);
}

/// A sequence that neither starts nor ends with whitespace is its own trim.
proof fn lemma_trim_fixed(s: Seq<char>)
    requires
        s.len() > 0,
        !is_ws(s[0]),
        !is_ws(s.last()),
    ensures
        trim(s) == s,
{
    assert(trim_start(s) == s);
    assert(trim_end(s) == s);
}

/// The first whitespace of `line` at or after `i` is the one right after a
/// whitespace-free keyword.
proof fn lemma_keyword_end(line: Seq<char>, word_len: int, i: int)
    requires
        0 <= i <= word_len < line.len(),
        is_ws(line[word_len]),
        forall|j: int| 0 <= j < word_len ==> !is_ws(#[trigger] line[j]),
    ensures
        ws_index_from(line, i) == word_len,
    decreases word_len - i,
{
    if i < word_len {
        lemma_keyword_end(line, word_len, i + 1);
    }
}

/// A line made of a keyword, one space and an argument (neither with
/// surrounding whitespace, the keyword with none at all) is read as the
/// command the keyword names, case-insensitively, carrying exactly that
/// argument.
pub proof fn law_parse_reads_keyword_and_argument(word: Seq<char>, arg: Seq<char>)
    requires
        word.len() > 0,
        forall|j: int| 0 <= j < word.len() ==> !is_ws(#[trigger] word[j]),
        arg.len() > 0,
        !is_ws(arg[0]),
        !is_ws(arg.last()),
    ensures
        ({
            let line = word + seq![' '] + arg;
            let key = ascii_upper_seq(word);
            &&& key == seq!['U', 'S', 'E', 'R'] ==> parse_command_spec(line) == CommandView::USER(arg)
            &&& key == seq!['P', 'A', 'S', 'S'] ==> parse_command_spec(line) == CommandView::PASS(arg)
            &&& key == seq!['R', 'E', 'T', 'R'] ==> parse_command_spec(line) == CommandView::RETR(arg)
            &&& key == seq!['S', 'T', 'O', 'R'] ==> parse_command_spec(line) == CommandView::STOR(arg)
            &&& key == seq!['D', 'E', 'L'] ==> parse_command_spec(line) == CommandView::DEL(arg)
            &&& key == seq!['C', 'W', 'D'] ==> parse_command_spec(line) == CommandView::CWD(arg)
            &&& key == seq!['P', 'O', 'R', 'T'] ==> parse_command_spec(line) == CommandView::PORT(arg)
        }),
{
    let line = word + seq![' '] + arg;
    let n = word.len() as int;
    assert(line[0] == word[0]);
    assert(line.last() == arg.last());
    lemma_trim_fixed(line);
    assert(is_ws(line[n]));
    assert forall|j: int| 0 <= j < n implies !is_ws(#[trigger] line[j]) by {
        assert(line[j] == word[j]);
    }
    lemma_keyword_end(line, n, 0);
    assert(line.subrange(0, n) =~= word);
    assert(line.subrange(n + 1, line.len() as int) =~= arg);
    lemma_trim_fixed(arg);
}

} // verus!
