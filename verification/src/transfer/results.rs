//! Results of data-channel set-up.
use crate::net::SocketAddress;
use vstd::prelude::*;

verus! {

/// Result of setting up passive mode: the data socket the server listens
/// on. The listener itself is held by the network layer.
#[derive(Debug, Clone, Copy)]
pub struct PassiveModeResult {
    pub data_socket: SocketAddress,
}

/// Result of setting up active mode (`PORT`): the data socket named by the
/// client. The listener itself is held by the network layer.
#[derive(Debug, Clone, Copy)]
pub struct ActiveModeResult {
    pub data_socket: SocketAddress,
}

} // verus!
