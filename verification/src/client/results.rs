//! Results of client session operations.
use vstd::prelude::*;

verus! {

/// Result of a logout.
#[derive(Debug, Clone)]
pub struct LogoutResult {
    pub was_logged_in: bool,
}

/// Result of a quit: the client's address as text (`unknown` when it was
/// not known).
#[derive(Debug, Clone)]
pub struct QuitResult {
    pub client_addr: String,
}

} // verus!
