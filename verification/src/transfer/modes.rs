//! FTP transfer modes.
use vstd::prelude::*;

verus! {

/// FTP transfer modes.
#[derive(Debug, Clone, Copy, PartialEq, Eq, Structural)]
pub enum TransferMode {
    Active,
    Passive,
}

/// Active mode configuration: the client's address for data.
pub struct ActiveMode {
    pub client_ip: String,
    pub client_port: u16,
}

/// Passive mode configuration: the server's address for data.
pub struct PassiveMode {
    pub server_ip: String,
    pub server_port: u16,
}

} // verus!
