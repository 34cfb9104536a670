//! Opening a passive-mode data connection in the lite server: the listener
//! is taken from the client's entry while a connection is awaited, polled
//! with a doubling back-off, and put back when none arrives.
use crate::lite::channel_registry::ChannelRegistry;
use crate::net::SocketAddress;
use crate::transfer::channel_registry::ChannelEntryView;
use vstd::prelude::*;

verus! {

/// How many times an incoming data connection is polled for.
pub const MAX_ATTEMPTS: u32 = 10;

/// The pause before the second poll, in milliseconds; it doubles after each
/// poll.
pub const INITIAL_SLEEP_MS: u64 = 100;

/// `2` to the power `n`.
pub open spec fn pow2(n: nat) -> nat
    decreases n,
{
    if n == 0 {
        1
    } else {
        2 * pow2((n - 1) as nat)
    }
}

/// The pause after poll number `attempt` (counting from 0) found no
/// connection waiting: `100 * 2^attempt` milliseconds while polls are
/// left, none when the wait is over.
pub fn accept_retry_delay_ms(attempt: u32) -> (d: Option<u64>)
    ensures
        d == (if attempt < MAX_ATTEMPTS {
            Some((100 * pow2(attempt as nat)) as u64)
        } else {
            None
        }),
{
    if attempt >= MAX_ATTEMPTS {
        return None;
    }
    let mut delay: u64 = INITIAL_SLEEP_MS;
    let mut k: u32 = 0;
    while k < attempt
        invariant
            k <= attempt,
            attempt < 10,
            delay == 100 * pow2(k as nat),
        decreases attempt - k,
    {
        proof {
            lemma_pow2_bound(k as nat);
        }
        delay = delay * 2;
        k = k + 1;
    }
    Some(delay)
}

proof fn lemma_pow2_monotone(n: nat, m: nat)
    requires
        n <= m,
    ensures
        pow2(n) <= pow2(m),
    decreases m,
{
    if n < m {
        lemma_pow2_monotone(n, (m - 1) as nat);
    }
}

proof fn lemma_pow2_bound(n: nat)
    requires
        n < 10,
    ensures
        pow2(n) <= 512,
{
    lemma_pow2_monotone(n, 9);
    reveal_with_fuel(pow2, 10);
    assert(pow2(9) == 512);
}

/// Takes the listener of a client out of its entry while a connection is
/// awaited: whether one was held.
pub fn take_listener(channel_registry: &mut ChannelRegistry, client_addr: &SocketAddress) -> (b: bool)
    requires
        old(channel_registry).wf(),
    ensures
        final(channel_registry).wf(),
        b == (old(channel_registry)@.dom().contains(*client_addr) && old(channel_registry)@[*client_addr].has_listener),
        old(channel_registry)@.dom().contains(*client_addr) ==> final(channel_registry)@ == old(
            channel_registry,
        )@.insert(*client_addr, ChannelEntryView { has_listener: false, ..old(channel_registry)@[*client_addr] }),
        !old(channel_registry)@.dom().contains(*client_addr) ==> final(channel_registry)@ == old(
            channel_registry,
        )@,
{
    match channel_registry.get_mut(client_addr) {
        Some(entry) => entry.take_listener(),
        None => false,
    }
}

/// Puts a client's listener back into its entry after no connection
/// arrived.
pub fn return_listener(channel_registry: &mut ChannelRegistry, client_addr: &SocketAddress)
    requires
        old(channel_registry).wf(),
    ensures
        final(channel_registry).wf(),
        old(channel_registry)@.dom().contains(*client_addr) ==> final(channel_registry)@ == old(
            channel_registry,
        )@.insert(*client_addr, ChannelEntryView { has_listener: true, ..old(channel_registry)@[*client_addr] }),
        !old(channel_registry)@.dom().contains(*client_addr) ==> final(channel_registry)@ == old(
            channel_registry,
        )@,
{
    match channel_registry.get_mut(client_addr) {
        Some(entry) => entry.set_listener(true),
        None => {},
    }
}

/// Where waiting for a passive-mode data connection stands, once the
/// listener has been taken out of the client's entry.
#[derive(Debug, Clone, Copy, PartialEq, Eq, Structural)]
pub enum AcceptState {
    /// The listener is being switched to non-blocking mode.
    Configuring,
    /// Poll number `attempt` (counting from 0) is under way.
    Polling { attempt: u32 },
    /// The wait is over.
    Done,
}

/// What came of the last action while waiting for a data connection.
#[derive(Debug, Clone, Copy, PartialEq, Eq, Structural)]
pub enum AcceptEvent {
    /// Whether the listener was switched to non-blocking mode.
    Configured(bool),
    /// A connection was accepted.
    Accepted,
    /// No connection was waiting.
    WouldBlock,
    /// Accepting failed for another reason.
    Failed,
}

/// What to do next while waiting for a data connection.
#[derive(Debug, Clone, Copy, PartialEq, Eq, Structural)]
pub enum AcceptAction {
    /// Poll the listener for a connection.
    Poll,
    /// Wait this many milliseconds, then poll again.
    PollAfter(u64),
    /// The accepted connection is the data connection; the listener stays
    /// out of the entry.
    Connected,
    /// Put the listener back; no connection.
    GiveBack,
    /// Wait this many milliseconds, then put the listener back; no
    /// connection.
    GiveBackAfter(u64),
}

/// Whether `event` answers the action that led to `state`.
pub open spec fn accept_event_fits(state: AcceptState, event: AcceptEvent) -> bool {
    match state {
        AcceptState::Configuring => event is Configured,
        AcceptState::Polling { attempt } => attempt < MAX_ATTEMPTS && !(event is Configured),
        AcceptState::Done => false,
    }
}

/// The next state and action while waiting for a data connection, for an
/// event that [`accept_event_fits`] the state (other pairs are never
/// stepped).
pub open spec fn accept_next(state: AcceptState, event: AcceptEvent) -> (AcceptState, AcceptAction) {
    match (state, event) {
        (AcceptState::Configuring, AcceptEvent::Configured(ok)) => if ok {
            (AcceptState::Polling { attempt: 0 }, AcceptAction::Poll)
        } else {
            (AcceptState::Done, AcceptAction::GiveBack)
        },
        (AcceptState::Polling { .. }, AcceptEvent::Accepted) => (AcceptState::Done, AcceptAction::Connected),
        (AcceptState::Polling { .. }, AcceptEvent::Failed) => (AcceptState::Done, AcceptAction::GiveBack),
        (AcceptState::Polling { attempt }, AcceptEvent::WouldBlock) => {
            let d = (100 * pow2(attempt as nat)) as u64;
            if attempt + 1 < MAX_ATTEMPTS {
                (AcceptState::Polling { attempt: (attempt + 1) as u32 }, AcceptAction::PollAfter(d))
            } else {
                (AcceptState::Done, AcceptAction::GiveBackAfter(d))
            }
        },
        _ => (state, AcceptAction::GiveBack),
    }
}

/// Whether an action puts the listener back.
pub open spec fn gives_back(a: AcceptAction) -> bool {
    a is GiveBack || a is GiveBackAfter
}

/// Takes one step of waiting for a client's data connection: the next state
/// and action; when the action puts the listener back, the client's entry
/// holds it again.
pub fn accept_step(
    channel_registry: &mut ChannelRegistry,
    client_addr: &SocketAddress,
    state: AcceptState,
    event: AcceptEvent,
) -> (r: (AcceptState, AcceptAction))
    requires
        old(channel_registry).wf(),
        accept_event_fits(state, event),
    ensures
        final(channel_registry).wf(),
        r == accept_next(state, event),
        gives_back(r.1) && old(channel_registry)@.dom().contains(*client_addr)
            ==> final(channel_registry)@ == old(channel_registry)@.insert(
            *client_addr,
            ChannelEntryView { has_listener: true, ..old(channel_registry)@[*client_addr] },
        ),
        !(gives_back(r.1) && old(channel_registry)@.dom().contains(*client_addr))
            ==> final(channel_registry)@ == old(channel_registry)@,
{
    let r = match (state, event) {
        (AcceptState::Configuring, AcceptEvent::Configured(ok)) => if ok {
            (AcceptState::Polling { attempt: 0 }, AcceptAction::Poll)
        } else {
            (AcceptState::Done, AcceptAction::GiveBack)
        },
        (AcceptState::Polling { .. }, AcceptEvent::Accepted) => (AcceptState::Done, AcceptAction::Connected),
        (AcceptState::Polling { .. }, AcceptEvent::Failed) => (AcceptState::Done, AcceptAction::GiveBack),
        (AcceptState::Polling { attempt }, AcceptEvent::WouldBlock) => {
            let d = match accept_retry_delay_ms(attempt) {
                Some(d) => d,
                None => 0,
            };
            if attempt + 1 < MAX_ATTEMPTS {
                (AcceptState::Polling { attempt: attempt + 1 }, AcceptAction::PollAfter(d))
            } else {
                (AcceptState::Done, AcceptAction::GiveBackAfter(d))
            }
        },
        _ => (state, AcceptAction::GiveBack),
    };
    match r.1 {
        AcceptAction::GiveBack | AcceptAction::GiveBackAfter(_) => return_listener(channel_registry, client_addr),
        _ => {},
    }
    r
}

/// Waiting for a data connection polls at most [`MAX_ATTEMPTS`] times; it
/// connects exactly when a poll accepted a connection, and otherwise ends
/// by putting the listener back.
pub proof fn law_accept_is_bounded(state: AcceptState, event: AcceptEvent)
    requires
        accept_event_fits(state, event),
    ensures
        ({
            let (next, action) = accept_next(state, event);
            &&& (next matches AcceptState::Polling { attempt } ==> attempt < MAX_ATTEMPTS)
            &&& (action is Poll || action is PollAfter) <==> next is Polling
            &&& (action is Connected <==> event is Accepted)
            &&& (next is Done && !(action is Connected) ==> gives_back(action))
            &&& (gives_back(action) ==> next is Done)
        }),
{
}

} // verus!
