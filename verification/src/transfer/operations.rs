//! Setting up and tearing down the data channel of a client, for passive
//! (`PASV`) and active (`PORT`) mode. A new set-up replaces the client's
//! previous one. The listener is bound by the network layer once the
//! registry entry is made; [`finish_data_channel_setup`] records how that
//! went.
use crate::error::types::{TransferError, TransferErrorView};
use crate::net::{ip_text, ip_to_string, SocketAddress};
use crate::text::{chars_of, string_from_chars};
use crate::transfer::channel_registry::{
    first_free_port, loopback_socket, socket_taken, unique_sockets, ChannelEntry,
    ChannelEntryView, ChannelRegistry,
};
use crate::transfer::results::{ActiveModeResult, PassiveModeResult};
use vstd::prelude::*;

verus! {

/// The lowest port a client may name for active mode.
pub const MIN_CLIENT_PORT: u16 = 1024;

/// The entry registered for a client whose data channel is set up on
/// `data_socket`: a listener is held, no stream is open yet, and the
/// client's IP address owns it.
pub open spec fn bound_entry(client: SocketAddress, data_socket: SocketAddress) -> ChannelEntryView {
    ChannelEntryView {
        data_socket: Some(data_socket),
        has_stream: false,
        has_listener: true,
        owner_ip: Some(client.ip),
    }
}

/// The registry after the client's channel is registered on `data_socket`:
/// unchanged when another client already holds that socket.
pub open spec fn register_spec(
    m: Map<SocketAddress, ChannelEntryView>,
    client: SocketAddress,
    data_socket: SocketAddress,
) -> Map<SocketAddress, ChannelEntryView> {
    if socket_taken(m.remove(client), data_socket) {
        m
    } else {
        m.insert(client, bound_entry(client, data_socket))
    }
}

fn new_bound_entry(client: SocketAddress, data_socket: SocketAddress) -> (e: ChannelEntry)
    ensures
        e@ == bound_entry(client, data_socket),
{
    let mut e = ChannelEntry::default();
    e.set_data_socket(Some(data_socket));
    e.set_data_stream(false);
    e.set_listener(true);
    e.set_owner_ip(Some(client.ip));
    e
}

/// The first free port of the passive range, when there is one, is in the
/// range and its loopback socket is held by no client.
pub proof fn lemma_first_free_port(m: Map<SocketAddress, ChannelEntryView>, p: int)
    ensures
        first_free_port(m, p) matches Some(q) ==> !socket_taken(m, loopback_socket(q)) && 2122
            <= q < 2222,
    decreases 2222 - p,
{
    if 2122 <= p < 2222 && socket_taken(m, loopback_socket(p as u16)) {
        lemma_first_free_port(m, p + 1);
    }
}

/// Drops the previous data channel of a client, if any.
fn replace_channel(channel_registry: &mut ChannelRegistry, client_addr: SocketAddress)
    ensures
        unique_sockets(final(channel_registry)@),
        final(channel_registry)@ == old(channel_registry)@.remove(client_addr),
{
    if channel_registry.contains(&client_addr) {
        channel_registry.cleanup_all(&client_addr);
    } else {
        assert(old(channel_registry)@.remove(client_addr) =~= old(channel_registry)@);
        channel_registry.cleanup_all(&client_addr);
    }
}

/// Registers the client's data channel on `data_socket`.
fn register_channel(
    channel_registry: &mut ChannelRegistry,
    client_addr: SocketAddress,
    data_socket: SocketAddress,
)
    ensures
        unique_sockets(final(channel_registry)@),
        final(channel_registry)@ == register_spec(old(channel_registry)@, client_addr, data_socket),
{
    let entry = new_bound_entry(client_addr, data_socket);
    channel_registry.insert(client_addr, entry);
}

/// Sets up passive mode for a client: its previous data channel is
/// dropped, the first free loopback socket of the passive port range is
/// chosen and registered for it. Fails when every port of the range is
/// held.
pub fn setup_passive_mode(channel_registry: &mut ChannelRegistry, client_addr: SocketAddress) -> (r:
    Result<PassiveModeResult, TransferError>)
    ensures
        unique_sockets(final(channel_registry)@),
        match first_free_port(old(channel_registry)@.remove(client_addr), 2122) {
            None => r matches Err(e) && e@ == TransferErrorView::NoAvailablePort
                && final(channel_registry)@ == old(channel_registry)@.remove(client_addr),
            Some(p) => r matches Ok(res) && res.data_socket == loopback_socket(p)
                && final(channel_registry)@ == old(channel_registry)@.remove(client_addr).insert(
                client_addr,
                bound_entry(client_addr, loopback_socket(p)),
            ),
        },
{
    replace_channel(channel_registry, client_addr);
    let data_socket = match channel_registry.next_available_socket() {
        Some(s) => s,
        None => {
            return Err(TransferError::NoAvailablePort);
        },
    };
    proof {
        lemma_first_free_port(channel_registry@, 2122);
    }
    register_channel(channel_registry, client_addr, data_socket);
    Ok(PassiveModeResult { data_socket })
}

/// What setting up active mode gives, given the address the client named
/// (none when it could not be read as a socket address), before its
/// listener is bound.
pub open spec fn active_mode_spec(client: SocketAddress, requested: Option<SocketAddress>) -> Result<
    SocketAddress,
    TransferErrorView,
> {
    match requested {
        None => Err(TransferErrorView::InvalidPortCommand("Invalid address format"@)),
        Some(a) => if a.ip != client.ip {
            Err(TransferErrorView::IpMismatch { expected: ip_text(client.ip), provided: ip_text(a.ip) })
        } else if a.port < 1024 {
            Err(TransferErrorView::InvalidPortRange(a.port))
        } else {
            Ok(a)
        },
    }
}

/// Sets up active mode (`PORT`) for a client: its previous data channel is
/// dropped; the address it named must be a socket address on the client's
/// own IP address with a port of at least 1024, and is then registered as
/// its data socket.
pub fn setup_active_mode(
    channel_registry: &mut ChannelRegistry,
    client_addr: SocketAddress,
    requested: Option<SocketAddress>,
) -> (r: Result<ActiveModeResult, TransferError>)
    ensures
        unique_sockets(final(channel_registry)@),
        match active_mode_spec(client_addr, requested) {
            Err(e) => r matches Err(x) && x@ == e && final(channel_registry)@ == old(
                channel_registry,
            )@.remove(client_addr),
            Ok(a) => r matches Ok(res) && res.data_socket == a && final(channel_registry)@
                == register_spec(old(channel_registry)@.remove(client_addr), client_addr, a),
        },
{
    replace_channel(channel_registry, client_addr);
    let a = match requested {
        None => {
            return Err(TransferError::InvalidPortCommand(string_from_chars(&chars_of("Invalid address format"))));
        },
        Some(a) => a,
    };
    if a.ip != client_addr.ip {
        return Err(TransferError::IpMismatch {
            expected: ip_to_string(client_addr.ip),
            provided: ip_to_string(a.ip),
        });
    }
    if a.port < MIN_CLIENT_PORT {
        return Err(TransferError::InvalidPortRange(a.port));
    }
    register_channel(channel_registry, client_addr, a);
    Ok(ActiveModeResult { data_socket: a })
}

/// How binding and configuring the listener of a data channel went.
#[derive(Debug, Clone)]
pub enum ListenerOutcome {
    /// The listener is bound and configured.
    Ready,
    /// Binding failed, with the error's description.
    BindFailed(String),
    /// Configuring the bound listener failed, with the error's description.
    ConfigurationFailed(String),
}

/// Records how binding the listener of a freshly registered data channel
/// went: on success the data socket is returned; on failure the client's
/// channel is dropped again and the error says why.
pub fn finish_data_channel_setup(
    channel_registry: &mut ChannelRegistry,
    client_addr: SocketAddress,
    data_socket: SocketAddress,
    outcome: ListenerOutcome,
) -> (r: Result<SocketAddress, TransferError>)
    ensures
        match outcome {
            ListenerOutcome::Ready => r == Ok::<SocketAddress, TransferError>(data_socket)
                && final(channel_registry)@ == old(channel_registry)@,
            ListenerOutcome::BindFailed(e) => r matches Err(x) && x@
                == TransferErrorView::PortBindingFailed(data_socket, e@) && final(channel_registry)@
                == old(channel_registry)@.remove(client_addr),
            ListenerOutcome::ConfigurationFailed(e) => r matches Err(x) && x@
                == TransferErrorView::ListenerConfigurationFailed(e@) && final(channel_registry)@
                == old(channel_registry)@.remove(client_addr),
        },
{
    match outcome {
        ListenerOutcome::Ready => Ok(data_socket),
        ListenerOutcome::BindFailed(e) => {
            cleanup_data_channel(channel_registry, &client_addr);
            Err(TransferError::PortBindingFailed(data_socket, e))
        },
        ListenerOutcome::ConfigurationFailed(e) => {
            cleanup_data_channel(channel_registry, &client_addr);
            Err(TransferError::ListenerConfigurationFailed(e))
        },
    }
}

/// Drops only the data stream of a client, keeping its persistent set-up;
/// done after each transfer.
pub fn cleanup_data_stream_only(channel_registry: &mut ChannelRegistry, client_addr: &SocketAddress)
    ensures
        unique_sockets(final(channel_registry)@),
        old(channel_registry)@.dom().contains(*client_addr) ==> final(channel_registry)@ == old(
            channel_registry,
        )@.insert(*client_addr, ChannelEntryView { has_stream: false, ..old(channel_registry)@[*client_addr] }),
        !old(channel_registry)@.dom().contains(*client_addr) ==> final(channel_registry)@ == old(
            channel_registry,
        )@,
{
    channel_registry.cleanup_stream_only(client_addr);
}

/// Drops the whole data channel of a client; done when it disconnects or
/// sets up a new one.
pub fn cleanup_data_channel(channel_registry: &mut ChannelRegistry, client_addr: &SocketAddress)
    ensures
        unique_sockets(final(channel_registry)@),
        final(channel_registry)@ == old(channel_registry)@.remove(*client_addr),
{
    channel_registry.cleanup_all(client_addr);
}

} // verus!
