use udp_relay::action::{Action, Event, SessionId};
use udp_relay::addr::SocketAddress;
use udp_relay::relay::{Relay, DEFAULT_MAX_CLIENT};

fn remote() -> SocketAddress {
    SocketAddress::V4 { ip: 0x0a00_0001, port: 9000 }
}

fn client(n: u32) -> SocketAddress {
    SocketAddress::V4 { ip: 0xc0a8_0000 + n, port: 40000 }
}

fn greeting() -> Vec<u8> {
    b"welcome\n".to_vec()
}

fn relay(max_client: usize) -> Relay {
    Relay::new(remote(), true, max_client, greeting())
}

fn wildcard_v4() -> SocketAddress {
    SocketAddress::V4 { ip: 0, port: 0 }
}

/// Runs a whole admission without failure and returns the session it gave.
fn open_session(r: &mut Relay, who: SocketAddress, payload: &[u8]) -> SessionId {
    let first = r.handle_datagram(who, payload.to_vec());
    assert_eq!(first[0], Action::SendToClient { client: who, payload: greeting() });
    assert_eq!(first[first.len() - 1], Action::BindUpstream { local: wildcard_v4() });
    let second = r.upstream_bound(true);
    assert_eq!(second.len(), 1);
    let session = match &second[0] {
        Action::ConnectUpstream { session, remote: to } => {
            assert_eq!(*to, remote());
            *session
        }
        other => panic!("unexpected action {:?}", other),
    };
    let third = r.upstream_connected(true);
    assert_eq!(
        third,
        vec![
            Action::SendToUpstream { session, remote: remote(), payload: payload.to_vec() },
            Action::SpawnRelay { session, client: who },
        ]
    );
    session
}

#[test]
fn default_maximum_is_63() {
    assert_eq!(DEFAULT_MAX_CLIENT, 63);
}

#[test]
fn fresh_relay_has_no_session() {
    let r = relay(4);
    assert_eq!(r.session_count(), 0);
    assert_eq!(r.session_of(&client(1)), None);
}

#[test]
fn new_client_is_greeted_then_bound() {
    let mut r = relay(4);
    let actions = r.handle_datagram(client(1), vec![1, 2, 3]);
    assert_eq!(
        actions,
        vec![
            Action::SendToClient { client: client(1), payload: greeting() },
            Action::BindUpstream { local: wildcard_v4() },
        ]
    );
    assert_eq!(r.session_count(), 0);
    assert_eq!(r.session_of(&client(1)), None);
}

#[test]
fn ipv6_relay_binds_ipv6_wildcard() {
    let mut r = Relay::new(remote(), false, 4, greeting());
    let actions = r.handle_datagram(client(1), vec![]);
    assert_eq!(
        actions[1],
        Action::BindUpstream { local: SocketAddress::V6 { ip: 0, port: 0, flowinfo: 0, scope_id: 0 } }
    );
}

#[test]
fn admission_runs_connect_send_spawn() {
    let mut r = relay(4);
    let session = open_session(&mut r, client(1), &[9, 8, 7]);
    assert_eq!(session, 0);
    assert_eq!(r.session_count(), 1);
    assert_eq!(r.session_of(&client(1)), Some(0));
}

#[test]
fn sessions_are_numbered_in_order() {
    let mut r = relay(8);
    for n in 0..5u32 {
        let session = open_session(&mut r, client(n), &[n as u8]);
        assert_eq!(session, n as usize);
    }
    assert_eq!(r.session_count(), 5);
    for n in 0..5u32 {
        assert_eq!(r.session_of(&client(n)), Some(n as usize));
    }
    assert_eq!(r.session_of(&client(5)), None);
}

#[test]
fn known_client_is_forwarded_without_greeting() {
    let mut r = relay(4);
    let session = open_session(&mut r, client(1), &[0]);
    let actions = r.handle_datagram(client(1), vec![4, 5, 6]);
    assert_eq!(
        actions,
        vec![Action::SendToUpstream { session, remote: remote(), payload: vec![4, 5, 6] }]
    );
    assert_eq!(r.session_count(), 1);
}

#[test]
fn affinity_over_a_hundred_datagrams_of_varying_length() {
    let mut r = relay(4);
    let other = open_session(&mut r, client(7), &[1]);
    let session = open_session(&mut r, client(1), &[0]);
    assert_ne!(other, session);
    for round in 0..120usize {
        let len = (round * 41) % 4097;
        let payload: Vec<u8> = (0..len).map(|i| ((i + round) % 251) as u8).collect();
        let actions = r.handle_datagram(client(1), payload.clone());
        assert_eq!(
            actions,
            vec![Action::SendToUpstream { session, remote: remote(), payload }]
        );
    }
    let longest: Vec<u8> = (0..4096usize).map(|i| (i % 256) as u8).collect();
    assert_eq!(
        r.handle_datagram(client(1), longest.clone()),
        vec![Action::SendToUpstream { session, remote: remote(), payload: longest }]
    );
    assert_eq!(
        r.handle_datagram(client(1), vec![]),
        vec![Action::SendToUpstream { session, remote: remote(), payload: vec![] }]
    );
    assert_eq!(r.session_count(), 2);
}

#[test]
fn same_ip_other_port_is_another_client() {
    let mut r = relay(4);
    open_session(&mut r, client(1), &[0]);
    let twin = SocketAddress::V4 { ip: 0xc0a8_0001, port: 40001 };
    assert_eq!(r.session_of(&twin), None);
    let actions = r.handle_datagram(twin, vec![1]);
    assert_eq!(actions[0], Action::SendToClient { client: twin, payload: greeting() });
}

#[test]
fn ipv4_and_ipv6_with_equal_numbers_are_distinct_clients() {
    let mut r = relay(4);
    let four = SocketAddress::V4 { ip: 1, port: 5 };
    let six = SocketAddress::V6 { ip: 1, port: 5, flowinfo: 0, scope_id: 0 };
    assert_eq!(open_session(&mut r, four, &[0]), 0);
    assert_eq!(r.session_of(&six), None);
    assert_eq!(open_session(&mut r, six, &[0]), 1);
    assert_eq!(r.session_of(&four), Some(0));
    assert_eq!(r.session_of(&six), Some(1));
    let scoped = SocketAddress::V6 { ip: 1, port: 5, flowinfo: 0, scope_id: 3 };
    assert_eq!(r.session_of(&scoped), None);
}

#[test]
fn table_is_reset_when_it_exceeds_the_maximum() {
    let n: usize = 3;
    let mut r = relay(n);
    // N + 1 clients fit: the count is compared before the insertion.
    for k in 0..(n as u32 + 1) {
        let first = r.handle_datagram(client(k), vec![k as u8]);
        assert_eq!(first.len(), 2, "client {} must not evict", k);
        r.upstream_bound(true);
        r.upstream_connected(true);
    }
    assert_eq!(r.session_count(), n + 1);
    // The next new client evicts them all.
    let actions = r.handle_datagram(client(100), vec![1]);
    assert_eq!(
        actions,
        vec![
            Action::SendToClient { client: client(100), payload: greeting() },
            Action::EvictAll { tasks: vec![0, 1, 2, 3] },
            Action::BindUpstream { local: wildcard_v4() },
        ]
    );
    assert_eq!(r.session_count(), 0);
    for k in 0..(n as u32 + 1) {
        assert_eq!(r.session_of(&client(k)), None);
    }
    assert_eq!(r.upstream_bound(true), vec![Action::ConnectUpstream { session: 0, remote: remote() }]);
    r.upstream_connected(true);
    assert_eq!(r.session_count(), 1);
    assert_eq!(r.session_of(&client(100)), Some(0));
    // The first client is a new client again.
    let again = r.handle_datagram(client(0), vec![2]);
    assert_eq!(
        again,
        vec![
            Action::SendToClient { client: client(0), payload: greeting() },
            Action::BindUpstream { local: wildcard_v4() },
        ]
    );
}

#[test]
fn known_client_never_evicts_at_full_table() {
    let mut r = relay(1);
    open_session(&mut r, client(1), &[0]);
    open_session(&mut r, client(2), &[0]);
    assert_eq!(r.session_count(), 2);
    let actions = r.handle_datagram(client(1), vec![3]);
    assert_eq!(actions, vec![Action::SendToUpstream { session: 0, remote: remote(), payload: vec![3] }]);
    assert_eq!(r.session_count(), 2);
}

#[test]
fn maximum_of_zero_keeps_one_session() {
    let mut r = relay(0);
    assert_eq!(open_session(&mut r, client(1), &[0]), 0);
    let actions = r.handle_datagram(client(2), vec![0]);
    assert_eq!(actions[1], Action::EvictAll { tasks: vec![0] });
    assert_eq!(r.session_count(), 0);
}

#[test]
fn eviction_cancels_only_sessions_with_a_task() {
    let mut r = relay(1);
    open_session(&mut r, client(1), &[0]);
    // The second client's connect fails: it has a session and no task.
    r.handle_datagram(client(2), vec![0]);
    r.upstream_bound(true);
    assert_eq!(r.upstream_connected(false), vec![]);
    assert_eq!(r.session_count(), 2);
    let actions = r.handle_datagram(client(3), vec![0]);
    assert_eq!(actions[1], Action::EvictAll { tasks: vec![0] });
}

#[test]
fn failed_bind_drops_the_datagram_only() {
    let mut r = relay(4);
    open_session(&mut r, client(1), &[0]);
    r.handle_datagram(client(2), vec![1]);
    assert_eq!(r.upstream_bound(false), vec![]);
    assert_eq!(r.session_count(), 1);
    assert_eq!(r.session_of(&client(2)), None);
    // Nothing is awaited any more.
    assert_eq!(r.upstream_connected(true), vec![]);
    // The same client is a new client again, others are served as before.
    let again = r.handle_datagram(client(2), vec![1]);
    assert_eq!(again[0], Action::SendToClient { client: client(2), payload: greeting() });
    assert_eq!(
        r.handle_datagram(client(1), vec![5]),
        vec![Action::SendToUpstream { session: 0, remote: remote(), payload: vec![5] }]
    );
}

#[test]
fn failed_connect_leaves_the_session_in_the_table() {
    let mut r = relay(4);
    r.handle_datagram(client(1), vec![1]);
    assert_eq!(r.upstream_bound(true), vec![Action::ConnectUpstream { session: 0, remote: remote() }]);
    assert_eq!(r.upstream_connected(false), vec![]);
    assert_eq!(r.session_count(), 1);
    assert_eq!(r.session_of(&client(1)), Some(0));
    assert_eq!(
        r.handle_datagram(client(1), vec![2]),
        vec![Action::SendToUpstream { session: 0, remote: remote(), payload: vec![2] }]
    );
    assert_eq!(open_session(&mut r, client(2), &[3]), 1);
}

#[test]
fn outcome_that_nobody_awaits_changes_nothing() {
    let mut r = relay(4);
    assert_eq!(r.upstream_bound(true), vec![]);
    assert_eq!(r.upstream_connected(true), vec![]);
    assert_eq!(r.session_count(), 0);
    r.handle_datagram(client(1), vec![1]);
    // A connect outcome while a bind is awaited is ignored; the bind is still awaited.
    assert_eq!(r.upstream_connected(true), vec![]);
    assert_eq!(r.upstream_bound(true), vec![Action::ConnectUpstream { session: 0, remote: remote() }]);
    // A bind outcome while a connect is awaited is ignored too.
    assert_eq!(r.upstream_bound(true), vec![]);
    assert_eq!(r.session_count(), 1);
    assert_eq!(r.upstream_connected(true).len(), 2);
}

#[test]
fn datagram_during_admission_abandons_it() {
    let mut r = relay(4);
    r.handle_datagram(client(1), vec![1]);
    let actions = r.handle_datagram(client(2), vec![2]);
    assert_eq!(actions[0], Action::SendToClient { client: client(2), payload: greeting() });
    assert_eq!(r.upstream_bound(true), vec![Action::ConnectUpstream { session: 0, remote: remote() }]);
    assert_eq!(
        r.upstream_connected(true),
        vec![
            Action::SendToUpstream { session: 0, remote: remote(), payload: vec![2] },
            Action::SpawnRelay { session: 0, client: client(2) },
        ]
    );
    assert_eq!(r.session_of(&client(1)), None);
    assert_eq!(r.session_of(&client(2)), Some(0));
}

#[test]
fn step_dispatches_each_event() {
    let mut r = relay(4);
    let first = r.step(Event::Datagram { source: client(1), payload: vec![7] });
    assert_eq!(
        first,
        vec![
            Action::SendToClient { client: client(1), payload: greeting() },
            Action::BindUpstream { local: wildcard_v4() },
        ]
    );
    assert_eq!(
        r.step(Event::UpstreamBound { ok: true }),
        vec![Action::ConnectUpstream { session: 0, remote: remote() }]
    );
    assert_eq!(
        r.step(Event::UpstreamConnected { ok: true }),
        vec![
            Action::SendToUpstream { session: 0, remote: remote(), payload: vec![7] },
            Action::SpawnRelay { session: 0, client: client(1) },
        ]
    );
    assert_eq!(
        r.step(Event::Datagram { source: client(1), payload: vec![8] }),
        vec![Action::SendToUpstream { session: 0, remote: remote(), payload: vec![8] }]
    );
}

#[test]
fn empty_greeting_is_still_sent() {
    let mut r = Relay::new(remote(), true, 4, vec![]);
    let actions = r.handle_datagram(client(1), vec![1]);
    assert_eq!(actions[0], Action::SendToClient { client: client(1), payload: vec![] });
}

#[test]
fn many_clients_fill_a_large_table() {
    let mut r = relay(DEFAULT_MAX_CLIENT);
    for n in 0..64u32 {
        assert_eq!(open_session(&mut r, client(n), &[1]), n as usize);
    }
    assert_eq!(r.session_count(), 64);
    let actions = r.handle_datagram(client(64), vec![1]);
    assert_eq!(actions.len(), 3);
    assert_eq!(actions[1], Action::EvictAll { tasks: (0..64usize).collect() });
    assert_eq!(r.session_count(), 0);
}
