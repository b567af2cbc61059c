use vstd::prelude::*;

use crate::client::{DELIVERY_REQUIREMENT, URGENCY_REQUIREMENT};
use crate::dispatch::{EventStream, ReadCursor};
use crate::model::{
    message_views, views, Delivery, EventView, InboundEvent, OutboundMessage, OutboundView,
    PeerAddress, Urgency,
};

verus! {

/// The payload of every acknowledgment: the two bytes `ok`.
pub open spec fn ack_payload() -> Seq<u8> {
    seq![111u8, 107u8]
}

/// The acknowledgment sent back to `peer`.
pub open spec fn ack_to(peer: PeerAddress) -> OutboundView {
    OutboundView {
        destination: peer,
        payload: ack_payload(),
        delivery: Delivery::Unreliable,
        urgency: Urgency::OnTick,
    }
}

/// Whether `e` is an application message from a peer.
pub open spec fn is_message(e: EventView) -> bool {
    e is MessageReceived
}

/// The peer that sent the message `e`.
pub open spec fn sender(e: EventView) -> PeerAddress
    recommends
        is_message(e),
{
    e->MessageReceived_0
}

/// The acknowledgments the server sends for `events`: one to the sender of
/// each message, in the order the messages arrived, and none for any other
/// event.
pub open spec fn acknowledgments(events: Seq<EventView>) -> Seq<OutboundView>
    decreases events.len(),
{
    if events.len() == 0 {
        Seq::empty()
    } else {
        let earlier = acknowledgments(events.drop_last());
        match events.last() {
            EventView::MessageReceived(peer, _) => earlier.push(ack_to(peer)),
            _ => earlier,
        }
    }
}

/// Each message drained gets exactly one acknowledgment, sent to the peer
/// that sent it, in the order the messages arrived; no other kind of event
/// gets one.
pub proof fn lemma_one_ack_per_message(events: Seq<EventView>)
    ensures
        acknowledgments(events) == events.filter(|e: EventView| is_message(e)).map_values(
            |e: EventView| ack_to(sender(e)),
        ),
    decreases events.len(),
{
    reveal_with_fuel(Seq::filter, 1);
    let pred = |e: EventView| is_message(e);
    let f = |e: EventView| ack_to(sender(e));
    if events.len() > 0 {
        lemma_one_ack_per_message(events.drop_last());
        let earlier = events.drop_last().filter(pred);
        if is_message(events.last()) {
            assert(earlier.push(events.last()).map_values(f) =~= earlier.map_values(f).push(
                f(events.last()),
            ));
        }
    } else {
        assert(events.filter(pred).map_values(f) =~= Seq::<OutboundView>::empty());
    }
}

/// The acknowledgment to send back to `peer`.
pub fn acknowledgment(peer: PeerAddress) -> (r: OutboundMessage)
    ensures
        r@ == ack_to(peer),
{
    let payload: Vec<u8> = vec![111u8, 107u8];
    let r = OutboundMessage {
        destination: peer,
        payload,
        delivery: DELIVERY_REQUIREMENT,
        urgency: URGENCY_REQUIREMENT,
    };
    proof {
        assert(r@.payload =~= ack_payload());
    }
    r
}

/// The acknowledgments to send for `events`, in order.
pub fn acknowledge(events: &Vec<InboundEvent>) -> (r: Vec<OutboundMessage>)
    ensures
        message_views(r@) == acknowledgments(views(events@)),
{
    let mut out: Vec<OutboundMessage> = Vec::new();
    let mut i: usize = 0;
    while i < events.len()
        invariant
            i <= events@.len(),
            message_views(out@) == acknowledgments(views(events@).subrange(0, i as int)),
        decreases events@.len() - i,
    {
        let ghost prev = out@;
        let ghost seen = views(events@).subrange(0, i + 1);
        proof {
            assert(seen.drop_last() =~= views(events@).subrange(0, i as int));
            assert(seen.last() == events@[i as int]@);
        }
        match &events[i] {
            InboundEvent::MessageReceived(peer, _) => {
                let ack = acknowledgment(*peer);
                out.push(ack);
                proof {
                    assert(message_views(out@) =~= message_views(prev).push(ack@));
                }
            },
            _ => {},
        }
        i = i + 1;
    }
    proof {
        assert(views(events@).subrange(0, i as int) =~= views(events@));
    }
    out
}

/// What the server took from the inbound stream on one drain, and what it
/// sends in reply.
#[derive(Debug)]
pub struct ServerDrain {
    /// The events read, in order.
    pub events: Vec<InboundEvent>,
    /// The acknowledgments to hand to the transport, in order.
    pub replies: Vec<OutboundMessage>,
}

/// The server role: it reads the inbound stream through a cursor of its own
/// and acknowledges every message it reads.
#[derive(Debug)]
pub struct ServerSystem {
    reader: ReadCursor,
}

impl ServerSystem {
    /// The server's position in the inbound stream.
    pub closed spec fn cursor(&self) -> ReadCursor {
        self.reader
    }

    /// The cursor through which this system reads.
    pub fn reader(&self) -> (r: &ReadCursor)
        ensures
            *r == self.cursor(),
    {
        &self.reader
    }

    /// A server that reads through `reader`.
    pub fn new(reader: ReadCursor) -> (r: ServerSystem)
        ensures
            r.cursor() == reader,
    {
        ServerSystem { reader }
    }

    /// Reads the events published since the server last read, in order, and
    /// returns them with one acknowledgment for each message among them.
    pub fn drain_events(&mut self, stream: &EventStream) -> (r: ServerDrain)
        requires
            stream.wf(),
        ensures
            views(r.events@) == stream.pending(old(self).cursor()),
            message_views(r.replies@) == acknowledgments(views(r.events@)),
            old(self).cursor().position() <= stream.log().len()
                ==> final(self).cursor().position() == stream.log().len(),
    {
        let events = stream.read(&mut self.reader);
        let replies = acknowledge(&events);
        ServerDrain { events, replies }
    }
}

} // verus!
