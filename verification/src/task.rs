//! A session's relay task: the way back from the remote endpoint to the
//! client.

use vstd::prelude::*;
use crate::action::{Action, ActionView};
use crate::addr::SocketAddress;

verus! {

/// What a relay task for `client` does with the outcome of one receive on
/// its upstream socket: the bytes that arrived go to the client as they
/// are; a failed receive passes nothing on.
pub open spec fn reply(client: SocketAddress, received: Option<Seq<u8>>) -> Option<ActionView> {
    match received {
        Some(payload) => Some(ActionView::SendToClient { client, payload }),
        None => None,
    }
}

/// The payload of a receive, if there is one, as a sequence of bytes.
pub open spec fn bytes(received: Option<Vec<u8>>) -> Option<Seq<u8>> {
    match received {
        Some(payload) => Some(payload@),
        None => None,
    }
}

/// The action decided on, if there is one, as a mathematical value.
pub open spec fn seen(action: Option<Action>) -> Option<ActionView> {
    match action {
        Some(a) => Some(a@),
        None => None,
    }
}

/// Decides one turn of the relay task that serves `client`. `received` is
/// the payload that arrived on the upstream socket, or `None` if the
/// receive failed. The task goes on to the next receive either way.
pub fn reply_for(client: SocketAddress, received: Option<Vec<u8>>) -> (action: Option<Action>)
    ensures
        seen(action) == reply(client, bytes(received)),
{
    match received {
        Some(payload) => Some(Action::SendToClient { client, payload }),
        None => None,
    }
}

} // verus!
