//! Security checks on clients and commands. Every IP address is allowed and
//! no command is considered suspicious.
use vstd::prelude::*;

verus! {

/// Whether a client IP address may connect: every address may.
pub fn is_allowed_ip(ip: &str) -> (b: bool)
    ensures
        b,
{
    true
}

/// Whether a command looks suspicious: none does.
pub fn check_suspicious_activity(command: &str) -> (b: bool)
    ensures
        !b,
{
    false
}

} // verus!
