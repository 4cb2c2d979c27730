use udp_relay::action::Action;
use udp_relay::addr::{first_resolved, upstream_bind_addr, ResolveError, SocketAddress};
use udp_relay::datagram::{payload_of, BUFFER_SIZE};
use udp_relay::task::reply_for;

#[test]
fn buffer_holds_4096_bytes() {
    assert_eq!(BUFFER_SIZE, 4096);
}

#[test]
fn payload_is_the_received_prefix() {
    let mut buf = [0u8; BUFFER_SIZE];
    for (i, b) in buf.iter_mut().enumerate() {
        *b = (i % 253) as u8;
    }
    assert_eq!(payload_of(&buf, 0), Vec::<u8>::new());
    assert_eq!(payload_of(&buf, 1), vec![0u8]);
    assert_eq!(payload_of(&buf, 5), vec![0u8, 1, 2, 3, 4]);
    let whole = payload_of(&buf, BUFFER_SIZE);
    assert_eq!(whole.len(), 4096);
    assert_eq!(&whole[..], &buf[..]);
    for len in [2usize, 255, 256, 1500, 4095] {
        let p = payload_of(&buf, len);
        assert_eq!(p.len(), len);
        assert_eq!(&p[..], &buf[..len]);
    }
}

#[test]
fn payload_of_empty_buffer_is_empty() {
    let buf: [u8; 0] = [];
    assert_eq!(payload_of(&buf, 0), Vec::<u8>::new());
}

#[test]
fn reply_goes_to_the_client_unchanged() {
    let who = SocketAddress::V6 { ip: 1, port: 5000, flowinfo: 0, scope_id: 0 };
    for round in 0..100usize {
        let len = (round * 43) % 4097;
        let payload: Vec<u8> = (0..len).map(|i| ((i * 7 + round) % 256) as u8).collect();
        assert_eq!(
            reply_for(who, Some(payload.clone())),
            Some(Action::SendToClient { client: who, payload })
        );
    }
    assert_eq!(
        reply_for(who, Some(vec![])),
        Some(Action::SendToClient { client: who, payload: vec![] })
    );
}

#[test]
fn failed_receive_sends_nothing() {
    let who = SocketAddress::V4 { ip: 1, port: 5000 };
    assert_eq!(reply_for(who, None), None);
}

#[test]
fn upstream_sockets_bind_to_the_wildcard() {
    assert_eq!(upstream_bind_addr(true), SocketAddress::V4 { ip: 0, port: 0 });
    assert_eq!(
        upstream_bind_addr(false),
        SocketAddress::V6 { ip: 0, port: 0, flowinfo: 0, scope_id: 0 }
    );
}

#[test]
fn first_resolved_address_is_chosen() {
    let a = SocketAddress::V4 { ip: 0x7f00_0001, port: 80 };
    let b = SocketAddress::V6 { ip: 1, port: 80, flowinfo: 0, scope_id: 0 };
    assert_eq!(first_resolved(&vec![a, b]), Ok(a));
    assert_eq!(first_resolved(&vec![b, a]), Ok(b));
    assert_eq!(first_resolved(&vec![b]), Ok(b));
}

#[test]
fn no_resolved_address_is_an_error() {
    assert_eq!(first_resolved(&vec![]), Err(ResolveError::NotFound));
}

#[test]
fn keys_tell_addresses_apart() {
    let four = SocketAddress::V4 { ip: 1, port: 5 };
    let six = SocketAddress::V6 { ip: 1, port: 5, flowinfo: 0, scope_id: 0 };
    assert_eq!(four.to_key(), (4u8, 1u128, 5u16, 0u32, 0u32));
    assert_eq!(six.to_key(), (6u8, 1u128, 5u16, 0u32, 0u32));
    let full = SocketAddress::V6 { ip: u128::MAX, port: u16::MAX, flowinfo: 7, scope_id: 9 };
    assert_eq!(full.to_key(), (6u8, u128::MAX, u16::MAX, 7u32, 9u32));
    let top = SocketAddress::V4 { ip: u32::MAX, port: 0 };
    assert_eq!(top.to_key(), (4u8, 0xffff_ffffu128, 0u16, 0u32, 0u32));
}
