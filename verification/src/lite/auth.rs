//! Authentication of the lite server: user names and passwords checked
//! against the built-in credential store, with failures carrying the FTP
//! reply code to send.
use crate::auth::credentials::{lookup_password, stored_password};
use crate::text::{chars_eq, chars_of};
use vstd::prelude::*;

verus! {

/// An authentication failure: a description and the FTP reply code.
#[derive(Debug)]
pub struct AuthError {
    message: &'static str,
    ftp_code: &'static str,
}

impl AuthError {
    /// The description of this failure.
    pub closed spec fn message_view(&self) -> Seq<char> {
        self.message@
    }

    /// The FTP reply code of this failure.
    pub closed spec fn code_view(&self) -> Seq<char> {
        self.ftp_code@
    }

    /// A failure with the given description and FTP reply code.
    pub fn new(message: &'static str, ftp_code: &'static str) -> (e: Self)
        ensures
            e.message_view() == message@,
            e.code_view() == ftp_code@,
    {
        AuthError { message, ftp_code }
    }

    /// The FTP reply code, to send to the client.
    pub fn ftp_response(&self) -> (c: &'static str)
        ensures
            c@ == self.code_view(),
    {
        self.ftp_code
    }

    /// The description of this failure.
    pub fn message(&self) -> (m: &'static str)
        ensures
            m@ == self.message_view(),
    {
        self.message
    }
}

/// What checking a user name gives: the reply asking for the password when
/// the user exists, and otherwise the failure (description, code).
pub open spec fn lite_user_check(username: Seq<char>) -> Result<Seq<char>, (Seq<char>, Seq<char>)> {
    if stored_password(username) is Some {
        Ok("331 Password required\r\n"@)
    } else {
        Err(("Invalid username"@, "530"@))
    }
}

/// The view of a check's result.
pub open spec fn lite_auth_result(r: Result<&'static str, AuthError>) -> Result<Seq<char>, (Seq<char>, Seq<char>)> {
    match r {
        Ok(s) => Ok(s@),
        Err(e) => Err((e.message_view(), e.code_view())),
    }
}

/// Checks that a user name exists in the credential store.
pub fn validate_user(username: &str) -> (r: Result<&'static str, AuthError>)
    ensures
        lite_auth_result(r) == lite_user_check(username@),
{
    match lookup_password(&chars_of(username)) {
        Some(_) => Ok("331 Password required\r\n"),
        None => Err(AuthError::new("Invalid username", "530")),
    }
}

/// What checking a password gives: the login reply when it is the one
/// stored for the user, and otherwise the failure (description, code).
pub open spec fn lite_password_check(username: Seq<char>, password: Seq<char>) -> Result<
    Seq<char>,
    (Seq<char>, Seq<char>),
> {
    match stored_password(username) {
        Some(p) => if p == password {
            Ok("230 Login successful\r\n"@)
        } else {
            Err(("Invalid password"@, "530"@))
        },
        None => Err(("Invalid username"@, "530"@)),
    }
}

/// Checks that a password is the one stored for a user.
pub fn validate_password(username: &str, password: &str) -> (r: Result<&'static str, AuthError>)
    ensures
        lite_auth_result(r) == lite_password_check(username@, password@),
{
    match lookup_password(&chars_of(username)) {
        Some(stored) => {
            if chars_eq(&stored, &chars_of(password)) {
                Ok("230 Login successful\r\n")
            } else {
                Err(AuthError::new("Invalid password", "530"))
            }
        },
        None => Err(AuthError::new("Invalid username", "530")),
    }
}

} // verus!
