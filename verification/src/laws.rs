//! What follows from the state machine, for every state and every input.

use vstd::prelude::*;
use crate::action::ActionView;
use crate::addr::{wildcard, SocketAddress};
use crate::model::{Pending, RelayState};

verus! {

impl RelayState {
    /// The state after one datagram from `source` for each payload of
    /// `payloads`, in order.
    pub open spec fn after_run(self, source: SocketAddress, payloads: Seq<Seq<u8>>) -> RelayState
        decreases payloads.len(),
    {
        if payloads.len() == 0 {
            self
        } else {
            self.after_run(source, payloads.drop_last()).after_datagram(source, payloads.last())
        }
    }

    /// The state after a datagram from a new client whose upstream socket
    /// is then bound and connected without failure.
    pub open spec fn after_admission(self, client: SocketAddress, payload: Seq<u8>) -> RelayState {
        self.after_datagram(client, payload).after_bound(true).after_connected(true)
    }

    /// The state after the admission of each client of `clients`, in order.
    pub open spec fn after_admissions(self, clients: Seq<SocketAddress>, payload: Seq<u8>) -> RelayState
        decreases clients.len(),
    {
        if clients.len() == 0 {
            self
        } else {
            self.after_admissions(clients.drop_last(), payload).after_admission(clients.last(), payload)
        }
    }
}

/// The first thing a datagram from an unknown client asks for is the
/// greeting, sent to that client; nothing it asks for sends anything
/// upstream, and the datagram itself is kept for later.
pub proof fn lemma_new_client_is_greeted_first(s: RelayState, source: SocketAddress, payload: Seq<u8>)
    requires
        s.wf(),
        !s.knows(source),
    ensures
        s.datagram_actions(source, payload).len() >= 2,
        s.datagram_actions(source, payload)[0] == (ActionView::SendToClient {
            client: source,
            payload: s.greeting,
        }),
        s.datagram_actions(source, payload).last() == (ActionView::BindUpstream {
            local: wildcard(s.ipv4),
        }),
        forall|i: int|
            0 <= i < s.datagram_actions(source, payload).len() ==> !(#[trigger] s.datagram_actions(
                source,
                payload,
            )[i] is SendToUpstream),
        s.after_datagram(source, payload).pending == (Pending::Binding { client: source, payload }),
{
}

/// An admission that meets no failure ends with the client in the table,
/// under a session that no other client has; the datagram that started it
/// is sent over that session's socket, byte for byte, and the session's
/// relay task is started last.
pub proof fn lemma_admission_completes(s: RelayState, client: SocketAddress, payload: Seq<u8>)
    requires
        s.wf(),
        !s.knows(client),
    ensures
        s.after_admission(client, payload).wf(),
        s.after_admission(client, payload).knows(client),
        s.after_admission(client, payload).pending == Pending::Idle,
        s.after_admission(client, payload).tasks.last() == s.after_admission(client, payload).sessions[client],
        s.after_datagram(client, payload).bound_actions(true) == seq![
            ActionView::ConnectUpstream {
                session: s.after_admission(client, payload).sessions[client],
                remote: s.remote,
            },
        ],
        s.after_datagram(client, payload).after_bound(true).connected_actions(true) == seq![
            ActionView::SendToUpstream {
                session: s.after_admission(client, payload).sessions[client],
                remote: s.remote,
                payload,
            },
            ActionView::SpawnRelay { session: s.after_admission(client, payload).sessions[client], client },
        ],
{
    s.lemma_datagram_preserves_wf(client, payload);
    s.after_datagram(client, payload).lemma_bound_preserves_wf(true);
    s.after_datagram(client, payload).after_bound(true).lemma_connected_preserves_wf(true);
}

/// A datagram from a client that has a session asks for exactly one thing:
/// its payload, unchanged, on that session's upstream socket, towards the
/// remote address. The table and the task list stay as they are.
pub proof fn lemma_session_affinity(s: RelayState, client: SocketAddress, payload: Seq<u8>)
    requires
        s.wf(),
        s.knows(client),
    ensures
        s.datagram_actions(client, payload) == seq![
            ActionView::SendToUpstream { session: s.sessions[client], remote: s.remote, payload },
        ],
        s.after_datagram(client, payload).sessions == s.sessions,
        s.after_datagram(client, payload).tasks == s.tasks,
        s.after_datagram(client, payload).pending == Pending::Idle,
        s.after_datagram(client, payload).wf(),
{
}

/// However many datagrams a client with a session sends, and whatever
/// their payloads, each is passed on to the same session, unchanged.
pub proof fn lemma_affinity_over_run(s: RelayState, client: SocketAddress, payloads: Seq<Seq<u8>>, next: Seq<u8>)
    requires
        s.wf(),
        s.knows(client),
    ensures
        s.after_run(client, payloads).wf(),
        s.after_run(client, payloads).sessions == s.sessions,
        s.after_run(client, payloads).tasks == s.tasks,
        s.after_run(client, payloads).remote == s.remote,
        s.after_run(client, payloads).datagram_actions(client, next) == seq![
            ActionView::SendToUpstream { session: s.sessions[client], remote: s.remote, payload: next },
        ],
    decreases payloads.len(),
{
    if payloads.len() > 0 {
        lemma_affinity_over_run(s, client, payloads.drop_last(), payloads.last());
        lemma_session_affinity(s.after_run(client, payloads.drop_last()), client, payloads.last());
    }
    lemma_session_affinity(s.after_run(client, payloads), client, next);
}

/// The table never holds more than one session over the maximum, and a new
/// client evicts exactly when it holds that many.
pub proof fn lemma_eviction_exactly_over_capacity(s: RelayState, source: SocketAddress, payload: Seq<u8>)
    requires
        s.wf(),
        !s.knows(source),
    ensures
        s.sessions.len() <= s.max_client + 1,
        s.datagram_actions(source, payload).contains(ActionView::EvictAll { tasks: s.tasks }) <==> s.sessions.len()
            == s.max_client + 1,
        s.sessions.len() <= s.max_client ==> s.after_datagram(source, payload).sessions == s.sessions
            && s.after_datagram(source, payload).tasks == s.tasks,
{
    let acts = s.datagram_actions(source, payload);
    let evict = ActionView::EvictAll { tasks: s.tasks };
    if s.over_capacity() {
        assert(acts[1] == evict);
    }
}

/// When a new client arrives at a table over capacity, every relay task is
/// cancelled and every session is forgotten, whoever used it last: nobody
/// is known any more, and once the newcomer is admitted it holds the only
/// session. A client that had a session is greeted afresh by its next
/// datagram.
pub proof fn lemma_eviction_forgets_everyone(
    s: RelayState,
    source: SocketAddress,
    payload: Seq<u8>,
    prior: SocketAddress,
    later: Seq<u8>,
)
    requires
        s.wf(),
        !s.knows(source),
        s.over_capacity(),
        s.knows(prior),
    ensures
        s.datagram_actions(source, payload) == seq![
            ActionView::SendToClient { client: source, payload: s.greeting },
            ActionView::EvictAll { tasks: s.tasks },
            ActionView::BindUpstream { local: wildcard(s.ipv4) },
        ],
        s.after_datagram(source, payload).sessions == Map::<SocketAddress, nat>::empty(),
        s.after_datagram(source, payload).tasks == Seq::<nat>::empty(),
        s.after_admission(source, payload).sessions == Map::<SocketAddress, nat>::empty().insert(source, 0),
        s.after_admission(source, payload).tasks == seq![0nat],
        !s.after_admission(source, payload).knows(prior),
        s.after_admission(source, payload).datagram_actions(prior, later)[0] == (ActionView::SendToClient {
            client: prior,
            payload: s.greeting,
        }),
{
    let s1 = s.after_datagram(source, payload);
    let s2 = s1.after_bound(true);
    assert(s1.sessions.len() == 0);
    assert(s2.sessions =~= Map::<SocketAddress, nat>::empty().insert(source, 0));
    assert(s.after_admission(source, payload).tasks =~= seq![0nat]);
}

/// A bind that fails costs the waiting datagram and nothing else: no
/// action, no change to the table or the tasks, and the relay is ready for
/// the next datagram. The client, still unknown, is greeted again when it
/// sends another.
pub proof fn lemma_bind_failure_is_absorbed(s: RelayState, client: SocketAddress, payload: Seq<u8>, later: Seq<u8>)
    requires
        s.wf(),
        s.pending == (Pending::Binding { client, payload }),
    ensures
        s.bound_actions(false) == Seq::<ActionView>::empty(),
        s.after_bound(false) == (RelayState { pending: Pending::Idle, ..s }),
        s.after_bound(false).wf(),
        s.after_bound(false).datagram_actions(client, later)[0] == (ActionView::SendToClient {
            client,
            payload: s.greeting,
        }),
{
}

/// A connect that fails costs the waiting datagram: no action follows and
/// no relay task is recorded. The session stays in the table, so the
/// client's later datagrams go to its socket, and the relay is ready for
/// the next datagram.
pub proof fn lemma_connect_failure_is_absorbed(
    s: RelayState,
    client: SocketAddress,
    session: nat,
    payload: Seq<u8>,
    later: Seq<u8>,
)
    requires
        s.wf(),
        s.pending == (Pending::Connecting { client, session, payload }),
    ensures
        s.connected_actions(false) == Seq::<ActionView>::empty(),
        s.after_connected(false) == (RelayState { pending: Pending::Idle, ..s }),
        s.after_connected(false).wf(),
        s.after_connected(false).datagram_actions(client, later) == seq![
            ActionView::SendToUpstream { session, remote: s.remote, payload: later },
        ],
{
}

/// Starting from an empty table, the admission of distinct clients, one
/// after the other and no more than one over the maximum, evicts nobody:
/// the table holds exactly these clients, numbered in the order in which
/// they came, each with its relay task.
pub proof fn lemma_admissions_fill_table(s: RelayState, clients: Seq<SocketAddress>, payload: Seq<u8>)
    requires
        s.wf(),
        s.sessions == Map::<SocketAddress, nat>::empty(),
        s.tasks == Seq::<nat>::empty(),
        clients.no_duplicates(),
        clients.len() <= s.max_client + 1,
    ensures
        s.after_admissions(clients, payload).wf(),
        s.after_admissions(clients, payload).max_client == s.max_client,
        s.after_admissions(clients, payload).greeting == s.greeting,
        s.after_admissions(clients, payload).sessions.len() == clients.len(),
        forall|a: SocketAddress| s.after_admissions(clients, payload).knows(a) <==> clients.contains(a),
        forall|i: int|
            0 <= i < clients.len() ==> s.after_admissions(clients, payload).sessions[#[trigger] clients[i]]
                == i,
        s.after_admissions(clients, payload).tasks == Seq::new(clients.len(), |i: int| i as nat),
    decreases clients.len(),
{
    if clients.len() > 0 {
        let earlier = clients.drop_last();
        let newcomer = clients.last();
        lemma_admissions_fill_table(s, earlier, payload);
        let before = s.after_admissions(earlier, payload);
        assert(!before.knows(newcomer)) by {
            if earlier.contains(newcomer) {
                let i = choose|i: int| 0 <= i < earlier.len() && earlier[i] == newcomer;
                assert(clients[i] == clients[clients.len() - 1]);
            }
        }
        lemma_admission_completes(before, newcomer, payload);
        let after = before.after_admission(newcomer, payload);
        assert(after.sessions == before.sessions.insert(newcomer, before.sessions.len()));
        assert forall|a: SocketAddress| after.knows(a) <==> clients.contains(a) by {
            if clients.contains(a) {
                let i = choose|i: int| 0 <= i < clients.len() && clients[i] == a;
                if i < earlier.len() {
                    assert(earlier[i] == a);
                }
            }
            if earlier.contains(a) {
                let i = choose|i: int| 0 <= i < earlier.len() && earlier[i] == a;
                assert(clients[i] == a);
            }
            assert(clients[clients.len() - 1] == newcomer);
        }
        assert forall|i: int| 0 <= i < clients.len() implies after.sessions[#[trigger] clients[i]] == i by {
            if i < earlier.len() {
                assert(earlier[i] == clients[i]);
            }
        }
        assert(after.tasks =~= Seq::new(clients.len(), |i: int| i as nat));
    } else {
        assert(s.tasks =~= Seq::new(clients.len(), |i: int| i as nat));
    }
}

/// With a maximum of N, the admission of N + 1 distinct clients fills the
/// table, and the datagram of one more evicts them all: every relay task
/// is cancelled, the newcomer ends up alone in the table, and each of the
/// earlier clients is greeted afresh by its next datagram.
pub proof fn lemma_overflow_resets_table(
    s: RelayState,
    clients: Seq<SocketAddress>,
    newcomer: SocketAddress,
    payload: Seq<u8>,
    i: int,
)
    requires
        s.wf(),
        s.sessions == Map::<SocketAddress, nat>::empty(),
        s.tasks == Seq::<nat>::empty(),
        clients.no_duplicates(),
        clients.len() == s.max_client + 1,
        !clients.contains(newcomer),
        0 <= i < clients.len(),
    ensures
        s.after_admissions(clients, payload).datagram_actions(newcomer, payload)[1] == (ActionView::EvictAll {
            tasks: Seq::new(clients.len(), |i: int| i as nat),
        }),
        s.after_admissions(clients, payload).after_admission(newcomer, payload).sessions == Map::<
            SocketAddress,
            nat,
        >::empty().insert(newcomer, 0),
        !s.after_admissions(clients, payload).after_admission(newcomer, payload).knows(clients[i]),
        s.after_admissions(clients, payload).after_admission(newcomer, payload).datagram_actions(
            clients[i],
            payload,
        )[0] == (ActionView::SendToClient { client: clients[i], payload: s.greeting }),
{
    lemma_admissions_fill_table(s, clients, payload);
    let full = s.after_admissions(clients, payload);
    assert(clients.contains(clients[i]));
    lemma_eviction_forgets_everyone(full, newcomer, payload, clients[i], payload);
}

} // verus!
