use vstd::prelude::*;

verus! {

#[verifier::external_type_specification]
#[verifier::external_body]
#[verifier::reject_recursive_types(T)]
pub struct ExBroadcastSender<T>(tokio::sync::broadcast::Sender<T>);

#[verifier::external_type_specification]
#[verifier::external_body]
#[verifier::reject_recursive_types(T)]
pub struct ExBroadcastReceiver<T>(tokio::sync::broadcast::Receiver<T>);

/// Relies on tokio::sync::broadcast::channel: a new bounded broadcast
/// channel with room for `capacity` pending chunks per subscriber.
/// The call panics on capacity 0 or over half the address space, so
/// those are excluded here.
#[verifier::external_body]
pub(crate) fn chunk_channel(capacity: usize) -> (r: (
    tokio::sync::broadcast::Sender<Vec<u8>>,
    tokio::sync::broadcast::Receiver<Vec<u8>>,
))
    requires
        0 < capacity <= usize::MAX / 2,
{
    tokio::sync::broadcast::channel(capacity)
}

/// Relies on tokio's broadcast::Sender::send: queues the chunk for
/// every current subscriber, in send order; a slow subscriber may
/// later miss overwritten chunks but chunks are never reordered.
/// Fails only when no receiver exists, and is then a no-op.
#[verifier::external_body]
pub(crate) fn chunk_send(tx: &tokio::sync::broadcast::Sender<Vec<u8>>, chunk: Vec<u8>) -> (delivered:
    bool)
{
    tx.send(chunk).is_ok()
}

/// Relies on tokio's broadcast::Sender::subscribe: a new receiver
/// that observes exactly the chunks sent after this call, in send
/// order, minus any it is too slow to keep.
#[verifier::external_body]
pub(crate) fn chunk_subscribe(tx: &tokio::sync::broadcast::Sender<Vec<u8>>) -> (rx:
    tokio::sync::broadcast::Receiver<Vec<u8>>)
{
    tx.subscribe()
}

/// Relies on Clone for tokio's broadcast::Sender: another handle onto
/// the same channel.
#[verifier::external_body]
pub(crate) fn chunk_sender_clone(tx: &tokio::sync::broadcast::Sender<Vec<u8>>) -> (r:
    tokio::sync::broadcast::Sender<Vec<u8>>)
{
    tx.clone()
}

} // verus!
