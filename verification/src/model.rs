//! The relay as a state machine over mathematical values: what it
//! remembers, and how each event changes that.

use vstd::prelude::*;
use crate::action::{ActionView, EventView};
use crate::addr::{wildcard, SocketAddress};

verus! {

/// The admission that is under way, if any.
pub ghost enum Pending {
    /// None: the last datagram has been dealt with.
    Idle,
    /// A new client's upstream socket is being bound.
    Binding { client: SocketAddress, payload: Seq<u8> },
    /// The client is in the table as `session` and its upstream socket is
    /// being connected.
    Connecting { client: SocketAddress, session: nat, payload: Seq<u8> },
}

/// Everything the relay engine remembers.
pub ghost struct RelayState {
    /// Where every client's traffic goes.
    pub remote: SocketAddress,
    /// Whether upstream sockets are IPv4.
    pub ipv4: bool,
    /// The session count above which the table is emptied.
    pub max_client: nat,
    /// What a new client is sent first.
    pub greeting: Seq<u8>,
    /// The session table: client address to session number.
    pub sessions: Map<SocketAddress, nat>,
    /// The sessions whose relay task has been started, oldest first.
    pub tasks: Seq<nat>,
    /// The admission under way.
    pub pending: Pending,
}

impl RelayState {
    /// The state of a relay that has seen no event yet.
    pub open spec fn init(remote: SocketAddress, ipv4: bool, max_client: nat, greeting: Seq<u8>) -> RelayState {
        RelayState {
            remote,
            ipv4,
            max_client,
            greeting,
            sessions: Map::empty(),
            tasks: Seq::empty(),
            pending: Pending::Idle,
        }
    }

    /// `client` has a session.
    pub open spec fn knows(self, client: SocketAddress) -> bool {
        self.sessions.contains_key(client)
    }

    /// The table holds more sessions than the configured maximum.
    pub open spec fn over_capacity(self) -> bool {
        self.sessions.len() > self.max_client
    }

    /// The table and the task list of this state, emptied.
    pub open spec fn evicted(self) -> RelayState {
        RelayState { sessions: Map::empty(), tasks: Seq::empty(), ..self }
    }

    /// The state after a datagram from `source`. A known client changes
    /// nothing. A new one starts an admission, on an emptied table if the
    /// table was over capacity. Either way an admission that was still
    /// under way is abandoned.
    pub open spec fn after_datagram(self, source: SocketAddress, payload: Seq<u8>) -> RelayState {
        if self.knows(source) {
            RelayState { pending: Pending::Idle, ..self }
        } else if self.over_capacity() {
            RelayState { pending: Pending::Binding { client: source, payload }, ..self.evicted() }
        } else {
            RelayState { pending: Pending::Binding { client: source, payload }, ..self }
        }
    }

    /// What a datagram from `source` asks for. A known client's payload
    /// goes to its session's upstream socket. A new client is greeted,
    /// then every session is evicted if the table was over capacity, then
    /// an upstream socket is bound.
    pub open spec fn datagram_actions(self, source: SocketAddress, payload: Seq<u8>) -> Seq<ActionView> {
        let greet = ActionView::SendToClient { client: source, payload: self.greeting };
        let bind = ActionView::BindUpstream { local: wildcard(self.ipv4) };
        if self.knows(source) {
            seq![
                ActionView::SendToUpstream {
                    session: self.sessions[source],
                    remote: self.remote,
                    payload,
                },
            ]
        } else if self.over_capacity() {
            seq![greet, ActionView::EvictAll { tasks: self.tasks }, bind]
        } else {
            seq![greet, bind]
        }
    }

    /// The state after the outcome of a bind. A socket bound for a waiting
    /// client makes that client a session, numbered by the table's size;
    /// a failure drops the admission. With no bind awaited nothing
    /// changes.
    pub open spec fn after_bound(self, ok: bool) -> RelayState {
        match self.pending {
            Pending::Binding { client, payload } => if ok {
                RelayState {
                    sessions: self.sessions.insert(client, self.sessions.len()),
                    pending: Pending::Connecting { client, session: self.sessions.len(), payload },
                    ..self
                }
            } else {
                RelayState { pending: Pending::Idle, ..self }
            },
            _ => self,
        }
    }

    /// What the outcome of a bind asks for: to connect the new session's
    /// socket to the remote address, or nothing.
    pub open spec fn bound_actions(self, ok: bool) -> Seq<ActionView> {
        match self.pending {
            Pending::Binding { client, payload } => if ok {
                seq![ActionView::ConnectUpstream { session: self.sessions.len(), remote: self.remote }]
            } else {
                Seq::empty()
            },
            _ => Seq::empty(),
        }
    }

    /// The state after the outcome of a connect. On success the session's
    /// relay task is recorded. On failure the admission is dropped and the
    /// session stays in the table, without a task. With no connect awaited
    /// nothing changes.
    pub open spec fn after_connected(self, ok: bool) -> RelayState {
        match self.pending {
            Pending::Connecting { client, session, payload } => if ok {
                RelayState { tasks: self.tasks.push(session), pending: Pending::Idle, ..self }
            } else {
                RelayState { pending: Pending::Idle, ..self }
            },
            _ => self,
        }
    }

    /// What the outcome of a connect asks for: to send the datagram that
    /// started the admission upstream and then to start the relay task,
    /// or nothing.
    pub open spec fn connected_actions(self, ok: bool) -> Seq<ActionView> {
        match self.pending {
            Pending::Connecting { client, session, payload } => if ok {
                seq![
                    ActionView::SendToUpstream { session, remote: self.remote, payload },
                    ActionView::SpawnRelay { session, client },
                ]
            } else {
                Seq::empty()
            },
            _ => Seq::empty(),
        }
    }

    /// The state after `event`.
    pub open spec fn after(self, event: EventView) -> RelayState {
        match event {
            EventView::Datagram { source, payload } => self.after_datagram(source, payload),
            EventView::UpstreamBound { ok } => self.after_bound(ok),
            EventView::UpstreamConnected { ok } => self.after_connected(ok),
        }
    }

    /// What `event` asks for.
    pub open spec fn actions(self, event: EventView) -> Seq<ActionView> {
        match event {
            EventView::Datagram { source, payload } => self.datagram_actions(source, payload),
            EventView::UpstreamBound { ok } => self.bound_actions(ok),
            EventView::UpstreamConnected { ok } => self.connected_actions(ok),
        }
    }

    /// What holds of every state the relay can reach: the table is finite
    /// and at most one session over the maximum; its sessions are numbered
    /// without gaps or repeats, so no two clients share one; every relay
    /// task belongs to a session of the table, and no session has two; a
    /// client whose socket is being bound has no session yet and there is
    /// room for it; a session whose socket is being connected is that
    /// client's and has no task yet.
    pub open spec fn wf(self) -> bool {
        &&& self.sessions.dom().finite()
        &&& self.sessions.len() <= self.max_client + 1
        &&& forall|a: SocketAddress| #[trigger]
            self.sessions.contains_key(a) ==> self.sessions[a] < self.sessions.len()
        &&& forall|a: SocketAddress, b: SocketAddress|
            #[trigger] self.sessions.contains_key(a) && #[trigger] self.sessions.contains_key(b)
                && self.sessions[a] == self.sessions[b] ==> a == b
        &&& forall|i: int| 0 <= i < self.tasks.len() ==> #[trigger] self.tasks[i] < self.sessions.len()
        &&& forall|i: int, j: int|
            0 <= i < j < self.tasks.len() ==> #[trigger] self.tasks[i] != #[trigger] self.tasks[j]
        &&& match self.pending {
            Pending::Idle => true,
            Pending::Binding { client, payload } => !self.knows(client) && !self.over_capacity(),
            Pending::Connecting { client, session, payload } => {
                &&& self.knows(client)
                &&& self.sessions[client] == session
                &&& !self.tasks.contains(session)
            },
        }
    }

    /// The initial state is well formed.
    pub proof fn lemma_init_wf(remote: SocketAddress, ipv4: bool, max_client: nat, greeting: Seq<u8>)
        ensures
            RelayState::init(remote, ipv4, max_client, greeting).wf(),
    {
    }

    /// A datagram leaves a well-formed state well formed.
    pub proof fn lemma_datagram_preserves_wf(self, source: SocketAddress, payload: Seq<u8>)
        requires
            self.wf(),
        ensures
            self.after_datagram(source, payload).wf(),
    {
    }

    /// The outcome of a bind leaves a well-formed state well formed.
    pub proof fn lemma_bound_preserves_wf(self, ok: bool)
        requires
            self.wf(),
        ensures
            self.after_bound(ok).wf(),
    {
    }

    /// The outcome of a connect leaves a well-formed state well formed.
    pub proof fn lemma_connected_preserves_wf(self, ok: bool)
        requires
            self.wf(),
        ensures
            self.after_connected(ok).wf(),
    {
    }
}

} // verus!
