//! The listener's side of the relay: the session table and the decisions
//! taken for each datagram that arrives on the listening socket.

use vstd::prelude::*;
use crate::action::{ids, views, Action, Event, SessionId};
use crate::addr::{upstream_bind_addr, SocketAddress};
use crate::datagram::copy_of;
use crate::model::{Pending, RelayState};
use crate::table::{entries, SessionMap};

verus! {

/// The maximum session count of a relay that is given none.
pub const DEFAULT_MAX_CLIENT: usize = 63;

/// The admission that is under way, with the datagram that started it.
enum Phase {
    Idle,
    Binding { client: SocketAddress, payload: Vec<u8> },
    Connecting { client: SocketAddress, session: SessionId, payload: Vec<u8> },
}

impl View for Phase {
    type V = Pending;

    closed spec fn view(&self) -> Pending {
        match *self {
            Phase::Idle => Pending::Idle,
            Phase::Binding { client, payload } => Pending::Binding { client, payload: payload@ },
            Phase::Connecting { client, session, payload } => Pending::Connecting {
                client,
                session: session as nat,
                payload: payload@,
            },
        }
    }
}

/// The relay engine. It owns the session table and is driven by one caller,
/// which hands it every event and performs the actions it gets back.
pub struct Relay {
    remote: SocketAddress,
    ipv4: bool,
    max_client: usize,
    greeting: Vec<u8>,
    table: SessionMap,
    tasks: Vec<SessionId>,
    phase: Phase,
}

impl View for Relay {
    type V = RelayState;

    closed spec fn view(&self) -> RelayState {
        RelayState {
            remote: self.remote,
            ipv4: self.ipv4,
            max_client: self.max_client as nat,
            greeting: self.greeting@,
            sessions: Map::new(
                |a: SocketAddress| entries(self.table).contains_key(a.key()),
                |a: SocketAddress| entries(self.table)[a.key()] as nat,
            ),
            tasks: ids(self.tasks@),
            pending: self.phase@,
        }
    }
}

impl Relay {
    /// The table holds one entry for each session of the state it stands
    /// for, and that state is well formed.
    pub closed spec fn wf(&self) -> bool {
        &&& self@.wf()
        &&& entries(self.table).dom().finite()
        &&& entries(self.table).len() == self@.sessions.len()
    }

    /// A relay that is well formed stands for a well-formed state.
    pub proof fn lemma_wf_view(&self)
        requires
            self.wf(),
        ensures
            self@.wf(),
    {
    }

    /// A relay towards `remote` that has no session yet. New clients are
    /// sent `greeting`; upstream sockets are IPv4 if `ipv4`, else IPv6; the
    /// table is emptied once it holds more than `max_client` sessions and
    /// another client arrives.
    pub fn new(remote: SocketAddress, ipv4: bool, max_client: usize, greeting: Vec<u8>) -> (relay: Relay)
        ensures
            relay.wf(),
            relay@ == RelayState::init(remote, ipv4, max_client as nat, greeting@),
    {
        let relay = Relay {
            remote,
            ipv4,
            max_client,
            greeting,
            table: SessionMap::new(),
            tasks: Vec::new(),
            phase: Phase::Idle,
        };
        proof {
            assert(relay@.sessions =~= Map::empty());
            assert(relay@.tasks =~= Seq::empty());
        }
        relay
    }

    /// The number of sessions in the table.
    pub fn session_count(&self) -> (n: usize)
        requires
            self.wf(),
        ensures
            n == self@.sessions.len(),
    {
        self.table.len()
    }

    /// The session of `client`, if it has one.
    pub fn session_of(&self, client: &SocketAddress) -> (found: Option<SessionId>)
        requires
            self.wf(),
        ensures
            found.is_some() == self@.knows(*client),
            found.is_some() ==> found.unwrap() as nat == self@.sessions[*client],
    {
        self.table.get(&client.to_key())
    }

    /// Deals with a datagram that arrived on the listening socket.
    ///
    /// The payload of a client that has a session is passed on to that
    /// session's upstream socket, and nothing else changes. A new client
    /// is sent the greeting first; if the table holds more sessions than
    /// the maximum, every session is then evicted; last, an upstream socket
    /// is asked for, and the datagram waits for it.
    pub fn handle_datagram(&mut self, source: SocketAddress, payload: Vec<u8>) -> (actions: Vec<Action>)
        requires
            old(self).wf(),
        ensures
            final(self).wf(),
            final(self)@ == old(self)@.after_datagram(source, payload@),
            views(actions@) == old(self)@.datagram_actions(source, payload@),
    {
        let mut actions: Vec<Action> = Vec::new();
        match self.table.get(&source.to_key()) {
            Some(session) => {
                self.phase = Phase::Idle;
                actions.push(Action::SendToUpstream { session, remote: self.remote, payload });
            },
            None => {
                actions.push(Action::SendToClient { client: source, payload: copy_of(&self.greeting) });
                if self.table.len() > self.max_client {
                    let mut cancelled: Vec<SessionId> = Vec::new();
                    std::mem::swap(&mut self.tasks, &mut cancelled);
                    self.table = SessionMap::new();
                    actions.push(Action::EvictAll { tasks: cancelled });
                }
                actions.push(Action::BindUpstream { local: upstream_bind_addr(self.ipv4) });
                self.phase = Phase::Binding { client: source, payload };
            },
        }
        proof {
            let before = old(self)@;
            let after = before.after_datagram(source, payload@);
            assert(self@.sessions =~= after.sessions);
            assert(self@.tasks =~= after.tasks);
            assert(views(actions@) =~= before.datagram_actions(source, payload@));
            before.lemma_datagram_preserves_wf(source, payload@);
        }
        actions
    }

    /// Deals with the outcome of the bind asked for last.
    ///
    /// If the socket was bound, the waiting client gets a session, numbered
    /// by the table's size, and the socket is to be connected to the remote
    /// address. If not, the waiting datagram is dropped. With no bind
    /// awaited nothing happens.
    pub fn upstream_bound(&mut self, ok: bool) -> (actions: Vec<Action>)
        requires
            old(self).wf(),
        ensures
            final(self).wf(),
            final(self)@ == old(self)@.after_bound(ok),
            views(actions@) == old(self)@.bound_actions(ok),
    {
        let mut actions: Vec<Action> = Vec::new();
        let mut phase = Phase::Idle;
        std::mem::swap(&mut self.phase, &mut phase);
        match phase {
            Phase::Binding { client, payload } => {
                if ok {
                    let session: SessionId = self.table.len();
                    self.table.insert(client.to_key(), session);
                    self.phase = Phase::Connecting { client, session, payload };
                    actions.push(Action::ConnectUpstream { session, remote: self.remote });
                    proof {
                        let grown = old(self)@.sessions.insert(client, session as nat);
                        assert forall|a: SocketAddress| #[trigger]
                            self@.sessions.contains_key(a) == grown.contains_key(a) by {
                            if a.key() == client.key() {
                                SocketAddress::lemma_key_injective(a, client);
                            }
                        }
                        assert(self@.sessions =~= grown);
                    }
                }
            },
            other => {
                self.phase = other;
            },
        }
        proof {
            let before = old(self)@;
            let after = before.after_bound(ok);
            assert(self@.sessions =~= after.sessions);
            assert(self@.tasks =~= after.tasks);
            assert(views(actions@) =~= before.bound_actions(ok));
            before.lemma_bound_preserves_wf(ok);
        }
        actions
    }

    /// Deals with the outcome of the connect asked for last.
    ///
    /// If the socket was connected, the datagram that started the admission
    /// is sent upstream and the session's relay task is started and
    /// recorded. If not, the datagram is dropped; the session stays in the
    /// table, without a relay task. With no connect awaited nothing
    /// happens.
    pub fn upstream_connected(&mut self, ok: bool) -> (actions: Vec<Action>)
        requires
            old(self).wf(),
        ensures
            final(self).wf(),
            final(self)@ == old(self)@.after_connected(ok),
            views(actions@) == old(self)@.connected_actions(ok),
    {
        let mut actions: Vec<Action> = Vec::new();
        let mut phase = Phase::Idle;
        std::mem::swap(&mut self.phase, &mut phase);
        match phase {
            Phase::Connecting { client, session, payload } => {
                if ok {
                    actions.push(Action::SendToUpstream { session, remote: self.remote, payload });
                    actions.push(Action::SpawnRelay { session, client });
                    self.tasks.push(session);
                }
            },
            other => {
                self.phase = other;
            },
        }
        proof {
            let before = old(self)@;
            let after = before.after_connected(ok);
            assert(self@.sessions =~= after.sessions);
            assert(self@.tasks =~= after.tasks);
            assert(views(actions@) =~= before.connected_actions(ok));
            before.lemma_connected_preserves_wf(ok);
        }
        actions
    }

    /// Deals with one event, whichever it is.
    pub fn step(&mut self, event: Event) -> (actions: Vec<Action>)
        requires
            old(self).wf(),
        ensures
            final(self).wf(),
            final(self)@ == old(self)@.after(event@),
            views(actions@) == old(self)@.actions(event@),
    {
        match event {
            Event::Datagram { source, payload } => self.handle_datagram(source, payload),
            Event::UpstreamBound { ok } => self.upstream_bound(ok),
            Event::UpstreamConnected { ok } => self.upstream_connected(ok),
        }
    }
}

} // verus!
