//! The built-in credential store: user names and their passwords.
use crate::text::chars_eq;
use vstd::prelude::*;

verus! {

/// The password stored for a user name, if the user exists. The store holds
/// `alice`/`alice123`, `bob`/`bob123` and `admin`/`admin123`.
pub open spec fn stored_password(username: Seq<char>) -> Option<Seq<char>> {
    if username == seq!['a', 'l', 'i', 'c', 'e'] {
        Some(seq!['a', 'l', 'i', 'c', 'e', '1', '2', '3'])
    } else if username == seq!['b', 'o', 'b'] {
        Some(seq!['b', 'o', 'b', '1', '2', '3'])
    } else if username == seq!['a', 'd', 'm', 'i', 'n'] {
        Some(seq!['a', 'd', 'm', 'i', 'n', '1', '2', '3'])
    } else {
        None
    }
}

/// The view of an optional character vector.
pub open spec fn opt_chars(o: Option<Vec<char>>) -> Option<Seq<char>> {
    match o {
        Some(v) => Some(v@),
        None => None,
    }
}

/// Looks up the password stored for a user name.
pub fn lookup_password(username: &[char]) -> (r: Option<Vec<char>>)
    ensures
        opt_chars(r) == stored_password(username@),
{
    let alice = ['a', 'l', 'i', 'c', 'e'];
    let bob = ['b', 'o', 'b'];
    let admin = ['a', 'd', 'm', 'i', 'n'];
    assert(alice@ =~= seq!['a', 'l', 'i', 'c', 'e']);
    assert(bob@ =~= seq!['b', 'o', 'b']);
    assert(admin@ =~= seq!['a', 'd', 'm', 'i', 'n']);
    if chars_eq(username, &alice) {
        let p = vec!['a', 'l', 'i', 'c', 'e', '1', '2', '3'];
        assert(p@ =~= seq!['a', 'l', 'i', 'c', 'e', '1', '2', '3']);
        Some(p)
    } else if chars_eq(username, &bob) {
        let p = vec!['b', 'o', 'b', '1', '2', '3'];
        assert(p@ =~= seq!['b', 'o', 'b', '1', '2', '3']);
        Some(p)
    } else if chars_eq(username, &admin) {
        let p = vec!['a', 'd', 'm', 'i', 'n', '1', '2', '3'];
        assert(p@ =~= seq!['a', 'd', 'm', 'i', 'n', '1', '2', '3']);
        Some(p)
    } else {
        None
    }
}

} // verus!
