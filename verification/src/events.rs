use vstd::prelude::*;

use crate::directory::Directory;
use crate::errors::RelayError;
use crate::hub::{Hub, RecvOutcome, Subscriber};

verus! {

/// One step of a subscription stream.
#[derive(Debug)]
pub enum StreamStep {
    /// The next message delivered to this consumer. Each message is the
    /// raw bytes of one published relay response or duplex frame; the
    /// serving layer encodes it as one server-push event.
    Event(Vec<u8>),
    /// Nothing is pending; the consumer has seen everything published so
    /// far and should wait for the next message.
    Pending,
    /// The stream is over: the consumer fell far enough behind that the
    /// entry reported an unrecoverable gap. Reconnection is the caller's
    /// responsibility, and a consumer that resubscribes only sees messages
    /// published after it did.
    Ended,
}

/// The admission decision of the subscription surface: an unknown
/// identifier is a client-addressing error, and an endpoint that no relay
/// activity has ever touched has no entry to attach to.
pub open spec fn spec_subscribe_decision(d: Directory, h: Hub, id: Seq<char>) -> Result<
    (),
    RelayError,
> {
    if d.spec_get(id) is None {
        Err(RelayError::EndpointNotFound)
    } else if !h.has_entry(id) {
        Err(RelayError::EndpointNotPublishing)
    } else {
        Ok(())
    }
}

/// Open a subscription stream on `endpoint_id`: verify that the endpoint
/// exists, then attach a new independent consumer to its fan-out entry.
/// The consumer will observe exactly the messages published after this
/// call, in hub-arrival order.
pub fn subscribe_stream(directory: &Directory, hub: &Hub, endpoint_id: &String) -> (r: Result<
    Subscriber,
    RelayError,
>)
    requires
        hub.wf(),
    ensures
        r is Ok <==> spec_subscribe_decision(*directory, *hub, endpoint_id@) is Ok,
        r matches Err(e) ==> Err::<(), RelayError>(e) == spec_subscribe_decision(
            *directory,
            *hub,
            endpoint_id@,
        ),
        r matches Ok(s) ==> hub.subscriber_valid(s) && s.endpoint_id@ == endpoint_id@ && s.cursor
            == hub.history_of(endpoint_id@).len() && hub.observed(s) == Seq::<Seq<u8>>::empty(),
{
    match directory.get(endpoint_id) {
        Ok(_) => hub.subscribe(endpoint_id),
        Err(err) => Err(err),
    }
}

/// Produce the next element of a subscription stream: the next message if
/// one is retained, `Pending` if the consumer should wait, and `Ended` —
/// the lagged consumer's unrecoverable gap — the first time the consumer
/// fell more than the hub's capacity behind. A lagged consumer misses
/// messages rather than slowing the publisher down.
pub fn next_event(hub: &Hub, sub: &mut Subscriber) -> (r: StreamStep)
    requires
        hub.wf(),
        hub.subscriber_valid(*old(sub)),
    ensures
        final(sub).endpoint_id == old(sub).endpoint_id,
        final(sub).index == old(sub).index,
        hub.subscriber_valid(*final(sub)),
        ({
            let h = hub.history_of(old(sub).endpoint_id@);
            &&& (old(sub).cursor + hub.capacity < h.len() ==> r is Ended && final(sub).cursor
                + hub.capacity == h.len())
            &&& (old(sub).cursor == h.len() ==> r is Pending && final(sub).cursor == old(
                sub,
            ).cursor)
            &&& (old(sub).cursor < h.len() && old(sub).cursor + hub.capacity >= h.len()
                ==> (r matches StreamStep::Event(m) && m@ == h[old(sub).cursor as int])
                && final(sub).cursor == old(sub).cursor + 1)
        }),
{
    match hub.recv(sub) {
        RecvOutcome::Message(m) => StreamStep::Event(m),
        RecvOutcome::Pending => StreamStep::Pending,
        RecvOutcome::Lagged => StreamStep::Ended,
    }
}

} // verus!
