use std::collections::HashSet;
use vstd::prelude::*;
use vstd::std_specs::iter::IteratorSpec;

use crate::ws::connection::{listed_at_most_once, without_client, ConnectionManager};
use crate::ws::message::{IncomingMessage, OutgoingMessage};

verus! {

broadcast use vstd::std_specs::hash::group_hash_axioms;

/// The registry lists `client` on exactly the matches in `local` (the
/// subscriptions its connection keeps for itself), and at most once on each.
pub open spec fn registry_agrees(connection: ConnectionManager, client: u64, local: Set<i32>) -> bool {
    forall|id: i32|
        #![trigger connection.subscribers_of(id)]
        (connection.subscribers_of(id).contains(client) <==> local.contains(id))
            && listed_at_most_once(connection.subscribers_of(id), client)
}

/// A client that the registry does not list anywhere agrees with an empty
/// set of subscriptions, as a freshly opened connection has.
pub proof fn lemma_new_connection_agrees(connection: ConnectionManager, client: u64)
    requires
        forall|id: i32| !(#[trigger] connection.subscribers_of(id)).contains(client),
    ensures
        registry_agrees(connection, client, Set::empty()),
{
}

/// The effect of one text message from `client`: the reply, and how the
/// connection's own subscriptions and the registry change.
pub open spec fn handles_text(
    message: Option<IncomingMessage>,
    client: u64,
    local_before: Set<i32>,
    local_after: Set<i32>,
    conn_before: ConnectionManager,
    conn_after: ConnectionManager,
    reply: OutgoingMessage,
) -> bool {
    match message {
        None => {
            &&& conn_after@ == conn_before@
            &&& local_after == local_before
            &&& reply matches OutgoingMessage::Error { message } && message@ == "Invalid JSON"@
        },
        Some(IncomingMessage::Subscribe { match_id }) => {
            &&& reply == (OutgoingMessage::Subscribed { match_id })
            &&& local_after == local_before.insert(match_id)
            &&& conn_after@ == if local_before.contains(match_id) {
                conn_before@
            } else {
                conn_before.with_subscriber(match_id, client)
            }
        },
        Some(IncomingMessage::Unsubscribe { match_id }) => {
            &&& reply == (OutgoingMessage::Unsubscribed { match_id })
            &&& local_after == local_before.remove(match_id)
            &&& conn_after@ == if local_before.contains(match_id) {
                conn_before.without_subscriber(match_id, client)
            } else {
                conn_before@
            }
        },
    }
}

/// Acts on one text frame from the client `client`. `message` is the frame
/// parsed as an [`IncomingMessage`], or `None` when it is not one.
///
/// A subscription to a match the connection does not follow yet adds the
/// client to the registry; one it already follows changes nothing but is
/// acknowledged all the same. An unsubscription takes the client off a match
/// it follows and is acknowledged in any case. Anything else is answered with
/// an error and changes nothing.
pub fn handle_text_message(
    message: Option<IncomingMessage>,
    client: u64,
    local_subscriptions: &mut HashSet<i32>,
    connection: &mut ConnectionManager,
) -> (reply: OutgoingMessage)
    ensures
        handles_text(
            message,
            client,
            old(local_subscriptions)@,
            final(local_subscriptions)@,
            *old(connection),
            *final(connection),
            reply,
        ),
        registry_agrees(*old(connection), client, old(local_subscriptions)@) ==> registry_agrees(
            *final(connection),
            client,
            final(local_subscriptions)@,
        ),
        forall|id: i32, other: u64|
            other != client ==> (#[trigger] final(connection).subscribers_of(id).contains(other)
                <==> old(connection).subscribers_of(id).contains(other)),
{
    let ghost before = *connection;
    match message {
        Some(IncomingMessage::Subscribe { match_id }) => {
            if local_subscriptions.insert(match_id) {
                connection.subscribe(match_id, client);
                proof {
                    before.lemma_subscribe_effect(match_id, client, *connection);
                }
            }
            OutgoingMessage::Subscribed { match_id }
        },
        Some(IncomingMessage::Unsubscribe { match_id }) => {
            if local_subscriptions.remove(&match_id) {
                connection.unsubscribe(match_id, client);
                proof {
                    before.lemma_unsubscribe_effect(match_id, client, *connection);
                }
            }
            OutgoingMessage::Unsubscribed { match_id }
        },
        None => OutgoingMessage::Error { message: "Invalid JSON".to_string() },
    }
}

/// A frame that a client sends over its socket; a text frame comes parsed as
/// an [`IncomingMessage`] (`None` when it is not one).
#[derive(Debug)]
pub enum ClientFrame {
    Text(Option<IncomingMessage>),
    Binary,
    Ping,
    Pong,
    Close,
}

/// What the socket loop does after a frame.
#[derive(Debug)]
pub enum FrameOutcome {
    /// Send this message back to the client.
    Reply(OutgoingMessage),
    /// Nothing to send (the frame is only worth a warning).
    Ignored,
    /// The client closed the socket: leave the loop.
    Closed,
}

/// Decides what to do with one frame from the client `client`: text is
/// handled as a message and answered; binary, ping and pong frames are
/// ignored; a close frame ends the loop. Only text changes any state.
pub fn handle_client_frame(
    frame: ClientFrame,
    client: u64,
    local_subscriptions: &mut HashSet<i32>,
    connection: &mut ConnectionManager,
) -> (outcome: FrameOutcome)
    ensures
        match frame {
            ClientFrame::Text(message) => outcome matches FrameOutcome::Reply(reply) && handles_text(
                message,
                client,
                old(local_subscriptions)@,
                final(local_subscriptions)@,
                *old(connection),
                *final(connection),
                reply,
            ),
            ClientFrame::Close => {
                &&& outcome is Closed
                &&& final(connection)@ == old(connection)@
                &&& final(local_subscriptions)@ == old(local_subscriptions)@
            },
            _ => {
                &&& outcome is Ignored
                &&& final(connection)@ == old(connection)@
                &&& final(local_subscriptions)@ == old(local_subscriptions)@
            },
        },
{
    match frame {
        ClientFrame::Text(message) => FrameOutcome::Reply(
            handle_text_message(message, client, local_subscriptions, connection),
        ),
        ClientFrame::Close => FrameOutcome::Closed,
        _ => FrameOutcome::Ignored,
    }
}

/// Taking a client off a match twice is the same as taking it off once.
proof fn lemma_without_client_idempotent(subscribers: Seq<u64>, client: u64)
    ensures
        without_client(without_client(subscribers, client), client) == without_client(subscribers, client),
{
    let once = without_client(subscribers, client);
    assert(!once.contains(client)) by {
        crate::ws::connection::lemma_without_client_contains(subscribers, client, client);
    }
    crate::ws::connection::lemma_without_absent_client(once, client);
}

/// When a connection closes, takes its client off every match it followed
/// (`local_subscriptions`). Matches it did not follow keep their subscribers.
pub fn release_subscriptions(
    connection: &mut ConnectionManager,
    local_subscriptions: &HashSet<i32>,
    client: u64,
)
    ensures
        forall|id: i32| #[trigger]
            final(connection).subscribers_of(id) == if local_subscriptions@.contains(id) {
                without_client(old(connection).subscribers_of(id), client)
            } else {
                old(connection).subscribers_of(id)
            },
        registry_agrees(*old(connection), client, local_subscriptions@) ==> forall|id: i32|
            !(#[trigger] final(connection).subscribers_of(id)).contains(client),
{
    let ghost before = *connection;
    let ghost mut done: Set<i32> = Set::empty();
    let ghost mut seen: Seq<i32> = Seq::empty();
    let keys = local_subscriptions.iter();
    let ghost all = IteratorSpec::remaining(&keys);
    assert(all.unref().to_set() == local_subscriptions@);
    for id in it: keys
        invariant
            it.seq() == all,
            all.unref().to_set() == local_subscriptions@,
            forall|k: i32| #[trigger]
                connection.subscribers_of(k) == if done.contains(k) {
                    without_client(before.subscribers_of(k), client)
                } else {
                    before.subscribers_of(k)
                },
            seen == all.unref().take(it.index()),
            forall|k: i32| done.contains(k) <==> seen.contains(k),
    {
        assert(*it.seq()[it.index()] == *id);
        let ghost mid = *connection;
        connection.unsubscribe(*id, client);
        proof {
            mid.lemma_unsubscribe_effect(*id, client, *connection);
            lemma_without_client_idempotent(before.subscribers_of(*id), client);
            done = done.insert(*id);
            assert(all.unref().take(it.index() + 1) == seen.push(*id));
            seen = seen.push(*id);
            assert forall|k: i32| done.contains(k) <==> seen.contains(k) by {
                if seen.contains(k) && k != *id {
                    let j = choose|j: int| 0 <= j < seen.len() && seen[j] == k;
                    assert(seen.drop_last()[j] == k);
                }
                if done.contains(k) && k != *id {
                    let j = choose|j: int| 0 <= j < seen.drop_last().len() && seen.drop_last()[j] == k;
                    assert(seen[j] == k);
                }
                if k == *id {
                    assert(seen[seen.len() - 1] == k);
                }
            }
        }
    }
    assert(seen == all.unref());
    assert(done =~= local_subscriptions@);
}

} // verus!
