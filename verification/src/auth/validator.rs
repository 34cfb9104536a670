//! Validation of user names and passwords against the credential store.
use crate::auth::credentials::{lookup_password, stored_password};
use crate::error::types::{AuthError, AuthErrorView};
use crate::text::{chars_eq, chars_of, contains_char, string_from_chars, trim, trim_chars};
use vstd::prelude::*;

verus! {

/// Whether a character belongs to a Unicode numeric category (Nd, Nl or No),
/// as `char::is_numeric` tests.
pub uninterp spec fn is_numeric_char(c: char) -> bool;

/// Tests whether `c` is numeric with `char::is_numeric`. ASCII digits are
/// numeric and no other ASCII character is, as that function's documentation
/// and the Unicode categories give; of other characters nothing is stated
/// beyond the name.
#[verifier::external_body]
fn char_is_numeric(c: char) -> (b: bool)
    ensures
        b == is_numeric_char(c),
        ('0' <= c && c <= '9') ==> b,
        ((c as u32) < 128 && !('0' <= c && c <= '9')) ==> !b,
{
    c.is_numeric()
}

/// Basic input sanitation: not blank, at most 64 bytes in UTF-8, and free
/// of carriage returns, line feeds and NUL characters.
pub open spec fn valid_input(input: Seq<char>) -> bool {
    &&& trim(input).len() > 0
    &&& utf8_len(input) <= 64
    &&& !input.contains('\r')
    &&& !input.contains('\n')
    &&& !input.contains('\0')
}

/// The length in bytes of the UTF-8 encoding of a text, as `str::len`
/// reports it.
pub open spec fn utf8_len(s: Seq<char>) -> usize {
    vstd::utf8::encode_utf8(s).len() as usize
}

/// Performs basic input sanitation to reject malicious or malformed user
/// names and passwords.
pub fn is_valid_input(input: &str) -> (b: bool)
    ensures
        b == valid_input(input@),
{
    let chars = chars_of(input);
    let t = trim_chars(&chars);
    t.len() > 0 && input.len() <= 64 && !contains_char(&chars, '\r') && !contains_char(
        &chars,
        '\n',
    ) && !contains_char(&chars, '\0')
}

/// The mathematical value of an authentication result.
pub open spec fn auth_result(r: Result<(), AuthError>) -> Result<(), AuthErrorView> {
    match r {
        Ok(()) => Ok(()),
        Err(e) => Err(e@),
    }
}

/// What validating a user name gives: names holding `@`, `#`, `$` or `%`,
/// or starting with a numeric character, are invalid; names that fail the
/// input sanitation are malformed; otherwise the name must be in the store.
pub open spec fn user_check(u: Seq<char>) -> Result<(), AuthErrorView> {
    if u.contains('@') || u.contains('#') || u.contains('$') || u.contains('%') || (u.len() > 0
        && is_numeric_char(u[0])) {
        Err(AuthErrorView::InvalidUsername(u))
    } else if !valid_input(u) {
        Err(AuthErrorView::MalformedInput("Invalid username format"@))
    } else if stored_password(u) is Some {
        Ok(())
    } else {
        Err(AuthErrorView::UserNotFound(u))
    }
}

/// Validates that the given user name is well-formed and exists in the
/// credential store.
pub fn validate_user(username: &str) -> (r: Result<(), AuthError>)
    ensures
        auth_result(r) == user_check(username@),
{
    let u = chars_of(username);
    let numeric_start = if u.len() > 0 {
        char_is_numeric(u[0])
    } else {
        false
    };
    if contains_char(&u, '@') || contains_char(&u, '#') || contains_char(&u, '$')
        || contains_char(&u, '%') || numeric_start {
        return Err(AuthError::InvalidUsername(string_from_chars(&u)));
    }
    if !is_valid_input(username) {
        return Err(
            AuthError::MalformedInput(string_from_chars(&chars_of("Invalid username format"))),
        );
    }
    match lookup_password(&u) {
        Some(_) => Ok(()),
        None => Err(AuthError::UserNotFound(string_from_chars(&u))),
    }
}

/// What validating a password for a user name gives: a password that fails
/// the input sanitation is malformed; otherwise it must equal the stored
/// password of an existing user.
pub open spec fn password_check(username: Seq<char>, password: Seq<char>) -> Result<(), AuthErrorView> {
    if !valid_input(password) {
        Err(AuthErrorView::MalformedInput("Invalid password format"@))
    } else {
        match stored_password(username) {
            Some(stored) => if stored == password {
                Ok(())
            } else {
                Err(AuthErrorView::InvalidPassword(username))
            },
            None => Err(AuthErrorView::UserNotFound(username)),
        }
    }
}

/// Validates that the provided password matches the stored password for
/// the user name.
pub fn validate_password(username: &str, password: &str) -> (r: Result<(), AuthError>)
    ensures
        auth_result(r) == password_check(username@, password@),
{
    if !is_valid_input(password) {
        return Err(
            AuthError::MalformedInput(string_from_chars(&chars_of("Invalid password format"))),
        );
    }
    let u = chars_of(username);
    let p = chars_of(password);
    match lookup_password(&u) {
        Some(stored) => if chars_eq(&stored, &p) {
            Ok(())
        } else {
            Err(AuthError::InvalidPassword(string_from_chars(&u)))
        },
        None => Err(AuthError::UserNotFound(string_from_chars(&u))),
    }
}

/// Only names of the credential store are accepted as users, and a
/// password is accepted for a user exactly when it is well-formed input and
/// is the one stored for that user.
pub proof fn law_credentials_decide_login(name: Seq<char>, password: Seq<char>)
    ensures
        user_check(name) is Ok ==> stored_password(name) is Some,
        password_check(name, password) is Ok <==> (valid_input(password) && stored_password(name) == Some(
            password,
        )),
{
}

} // verus!
