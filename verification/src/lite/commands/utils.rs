//! Checks shared by command handlers.
use crate::lite::client::Client;
use crate::text::{chars_of, string_from_chars};
use vstd::prelude::*;

verus! {

/// Whether a client may run a command that needs a login: when it may not,
/// the reply to send is returned as well.
pub fn require_auth(client: &Client) -> (r: (bool, Option<String>))
    ensures
        r.0 == client@.is_logged_in,
        r.0 ==> r.1 is None,
        !r.0 ==> (r.1 matches Some(m) && m@ == "530 Not logged in\r\n"@),
{
    if !client.is_logged_in() {
        (false, Some(string_from_chars(&chars_of("530 Not logged in\r\n"))))
    } else {
        (true, None)
    }
}

} // verus!
