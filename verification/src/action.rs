//! What the engine is told and what it asks for.

use vstd::prelude::*;
use crate::addr::SocketAddress;

verus! {

/// A session's number: its place among the sessions opened since the table
/// was last emptied, counted from zero.
pub type SessionId = usize;

/// Something that happened outside and that the engine must react to.
#[derive(Debug, PartialEq, Eq)]
pub enum Event {
    /// A datagram arrived on the listening socket.
    Datagram { source: SocketAddress, payload: Vec<u8> },
    /// The `BindUpstream` asked for last has succeeded or failed.
    UpstreamBound { ok: bool },
    /// The `ConnectUpstream` asked for last has succeeded or failed.
    UpstreamConnected { ok: bool },
}

/// An `Event` as a mathematical value.
pub ghost enum EventView {
    Datagram { source: SocketAddress, payload: Seq<u8> },
    UpstreamBound { ok: bool },
    UpstreamConnected { ok: bool },
}

impl View for Event {
    type V = EventView;

    open spec fn view(&self) -> EventView {
        match *self {
            Event::Datagram { source, payload } => EventView::Datagram { source, payload: payload@ },
            Event::UpstreamBound { ok } => EventView::UpstreamBound { ok },
            Event::UpstreamConnected { ok } => EventView::UpstreamConnected { ok },
        }
    }
}

/// One piece of outside work. A list of actions is performed in order; a
/// send that fails is reported to nobody.
#[derive(Debug, PartialEq, Eq)]
pub enum Action {
    /// Send `payload` to `client` over the listening socket.
    SendToClient { client: SocketAddress, payload: Vec<u8> },
    /// Give up every upstream socket and cancel the relay tasks of
    /// `tasks`, in this order, without waiting for them to end.
    EvictAll { tasks: Vec<SessionId> },
    /// Bind a new upstream socket to `local`, then report `UpstreamBound`.
    BindUpstream { local: SocketAddress },
    /// Make `remote` the destination of the socket just bound, which is
    /// session `session` from now on, then report `UpstreamConnected`.
    ConnectUpstream { session: SessionId, remote: SocketAddress },
    /// Send `payload` over the upstream socket of `session`, to `remote`.
    SendToUpstream { session: SessionId, remote: SocketAddress, payload: Vec<u8> },
    /// Start the task that carries what arrives on the upstream socket of
    /// `session` back to `client`.
    SpawnRelay { session: SessionId, client: SocketAddress },
}

/// An `Action` as a mathematical value.
pub ghost enum ActionView {
    SendToClient { client: SocketAddress, payload: Seq<u8> },
    EvictAll { tasks: Seq<nat> },
    BindUpstream { local: SocketAddress },
    ConnectUpstream { session: nat, remote: SocketAddress },
    SendToUpstream { session: nat, remote: SocketAddress, payload: Seq<u8> },
    SpawnRelay { session: nat, client: SocketAddress },
}

/// Session numbers as natural numbers.
pub open spec fn ids(sessions: Seq<SessionId>) -> Seq<nat> {
    Seq::new(sessions.len(), |i: int| sessions[i] as nat)
}

impl View for Action {
    type V = ActionView;

    open spec fn view(&self) -> ActionView {
        match *self {
            Action::SendToClient { client, payload } => ActionView::SendToClient {
                client,
                payload: payload@,
            },
            Action::EvictAll { tasks } => ActionView::EvictAll { tasks: ids(tasks@) },
            Action::BindUpstream { local } => ActionView::BindUpstream { local },
            Action::ConnectUpstream { session, remote } => ActionView::ConnectUpstream {
                session: session as nat,
                remote,
            },
            Action::SendToUpstream { session, remote, payload } => ActionView::SendToUpstream {
                session: session as nat,
                remote,
                payload: payload@,
            },
            Action::SpawnRelay { session, client } => ActionView::SpawnRelay {
                session: session as nat,
                client,
            },
        }
    }
}

/// A list of actions as mathematical values, in the same order.
pub open spec fn views(actions: Seq<Action>) -> Seq<ActionView> {
    Seq::new(actions.len(), |i: int| actions[i]@)
}

} // verus!
