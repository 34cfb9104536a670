//! Results of navigation commands.
use vstd::prelude::*;

verus! {

/// Result of a `PWD` command.
#[derive(Debug, Clone)]
pub struct PwdResult {
    pub virtual_path: String,
}

/// Result of a `CWD` command: the new virtual directory and the real path
/// it maps to.
#[derive(Debug, Clone)]
pub struct CwdResult {
    pub new_virtual_path: String,
    pub real_path: String,
}

} // verus!
