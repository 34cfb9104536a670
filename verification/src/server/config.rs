//! Location of the served file tree.
use vstd::prelude::*;

verus! {

/// Server configuration: the root directory of the served file tree.
pub struct ServerConfig {
    pub server_root: String,
}

impl Default for ServerConfig {
    fn default() -> (c: Self)
        ensures
            c.server_root@ == "./server_root"@,
    {
        ServerConfig { server_root: crate::text::string_from_chars(&crate::text::chars_of("./server_root")) }
    }
}

impl ServerConfig {
    /// The server root directory as a string.
    pub fn server_root_str(&self) -> (s: String)
        ensures
            s@ == self.server_root@,
    {
        self.server_root.clone()
    }
}

} // verus!
