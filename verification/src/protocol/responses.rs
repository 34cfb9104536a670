//! FTP reply codes and the formatting of a reply line.
use crate::text::{chars_of, decimal, decimal_chars, extend_chars, string_from_chars};
use vstd::prelude::*;

verus! {

/// Command okay.
pub const OK: u16 = 200;

/// Service ready for a new user.
pub const READY: u16 = 220;

/// User logged in.
pub const LOGIN_SUCCESS: u16 = 230;

/// Closing data connection; transfer complete.
pub const TRANSFER_COMPLETE: u16 = 226;

/// User name okay, need password.
pub const PASSWORD_REQUIRED: u16 = 331;

/// Not logged in.
pub const AUTH_FAILED: u16 = 530;

/// Requested action not taken; file unavailable.
pub const FILE_NOT_FOUND: u16 = 550;

/// The reply line for a code and a message: the code in decimal, a space,
/// the message and CRLF.
pub open spec fn reply_line(code: u16, message: Seq<char>) -> Seq<char> {
    decimal(code as nat) + seq![' '] + message + seq!['\r', '\n']
}

/// Formats an FTP reply line.
pub fn format_response(code: u16, message: &str) -> (s: String)
    ensures
        s@ == reply_line(code, message@),
{
    let mut v = decimal_chars(code as u64);
    v.push(' ');
    extend_chars(&mut v, &chars_of(message));
    v.push('\r');
    v.push('\n');
    assert(v@ =~= reply_line(code, message@));
    string_from_chars(&v)
}

} // verus!
