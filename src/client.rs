use vstd::prelude::*;
use vstd::string::StringSliceAdditionalSpecFns;

use crate::dispatch::{EventStream, ReadCursor};
use crate::encode::{decimal, push_decimal, push_str};
use crate::model::{
    message_views, views, Delivery, EventView, InboundEvent, OutboundMessage, OutboundView,
    PeerAddress, Urgency,
};

verus! {

/// Nanoseconds in one second.
pub const NANOS_PER_SECOND: u64 = 1_000_000_000;

/// How messages of both roles are delivered: they may be lost or reordered.
pub const DELIVERY_REQUIREMENT: Delivery = Delivery::Unreliable;

/// When messages of both roles are flushed: batched until the next tick.
pub const URGENCY_REQUIREMENT: Urgency = Urgency::OnTick;

/// The span of time in which the client withholds its messages, so that only
/// the transport's heartbeat keeps the connection alive. Both bounds are
/// exclusive and counted in nanoseconds since the clock started.
#[derive(Clone, Copy, Debug, PartialEq, Eq, Structural)]
pub struct LivenessWindow {
    pub start_ns: u64,
    pub end_ns: u64,
}

impl LivenessWindow {
    /// Whether the window is open at time `t`.
    pub open spec fn is_open(self, t: nat) -> bool {
        self.start_ns < t && t < self.end_ns
    }

    /// The window from five to ten seconds.
    pub fn standard() -> (r: LivenessWindow)
        ensures
            r.start_ns == 5 * NANOS_PER_SECOND,
            r.end_ns == 10 * NANOS_PER_SECOND,
    {
        LivenessWindow { start_ns: 5 * NANOS_PER_SECOND, end_ns: 10 * NANOS_PER_SECOND }
    }

    /// Whether the client withholds its messages at time `time_ns`.
    pub fn suppresses(&self, time_ns: u64) -> (r: bool)
        ensures
            r == self.is_open(time_ns as nat),
    {
        self.start_ns < time_ns && time_ns < self.end_ns
    }
}

/// What the clock reports on one poll: the time since it started, and the
/// simulation frames that elapsed since the previous poll, in order.
#[derive(Debug)]
pub struct SimulationTick {
    pub absolute_time_ns: u64,
    pub frames: Vec<u32>,
}

/// The text that opens each client message.
pub const FRAME_TAG: &'static str = "CL: sim_frame:";

/// The text between the frame number and the time in a client message.
pub const TIME_TAG: &'static str = ",abs_time_ns:";

/// The payload the client sends for `frame` at time `time_ns`:
/// `CL: sim_frame:<frame>,abs_time_ns:<time_ns>`.
pub open spec fn client_payload(frame: nat, time_ns: nat) -> Seq<u8> {
    FRAME_TAG.spec_bytes() + decimal(frame) + TIME_TAG.spec_bytes() + decimal(time_ns)
}

/// The message the client sends to `server` for `frame` at time `time_ns`.
pub open spec fn client_message(server: PeerAddress, frame: nat, time_ns: nat) -> OutboundView {
    OutboundView {
        destination: server,
        payload: client_payload(frame, time_ns),
        delivery: Delivery::Unreliable,
        urgency: Urgency::OnTick,
    }
}

/// The messages the client sends on one tick: none while the window is open,
/// else one for each elapsed frame, in frame order.
pub open spec fn client_sends(
    server: PeerAddress,
    window: LivenessWindow,
    time_ns: nat,
    frames: Seq<u32>,
) -> Seq<OutboundView> {
    if window.is_open(time_ns) {
        Seq::empty()
    } else {
        frames.map_values(|f: u32| client_message(server, f as nat, time_ns))
    }
}

/// The payload the client sends for `frame` at time `time_ns`.
pub fn frame_payload(frame: u32, time_ns: u64) -> (r: Vec<u8>)
    ensures
        r@ == client_payload(frame as nat, time_ns as nat),
{
    let mut out: Vec<u8> = Vec::new();
    push_str(&mut out, FRAME_TAG);
    push_decimal(&mut out, frame as u64);
    push_str(&mut out, TIME_TAG);
    push_decimal(&mut out, time_ns);
    proof {
        assert(out@ =~= client_payload(frame as nat, time_ns as nat));
    }
    out
}

/// The client role: it sends paced messages to one server and reads the
/// inbound stream through a cursor of its own.
#[derive(Debug)]
pub struct ClientSystem {
    reader: ReadCursor,
    server: PeerAddress,
    window: LivenessWindow,
}

impl ClientSystem {
    /// The client's position in the inbound stream.
    pub closed spec fn cursor(&self) -> ReadCursor {
        self.reader
    }

    /// The cursor through which this system reads.
    pub fn reader(&self) -> (r: &ReadCursor)
        ensures
            *r == self.cursor(),
    {
        &self.reader
    }

    /// Where the client's messages go.
    pub closed spec fn server(&self) -> PeerAddress {
        self.server
    }

    /// When the client withholds its messages.
    pub closed spec fn window(&self) -> LivenessWindow {
        self.window
    }

    /// Where the client's messages go.
    pub fn server_address(&self) -> (r: PeerAddress)
        ensures
            r == self.server(),
    {
        self.server
    }

    /// When the client withholds its messages.
    pub fn liveness_window(&self) -> (r: LivenessWindow)
        ensures
            r == self.window(),
    {
        self.window
    }

    /// A client that reads through `reader` and sends to `server`, silent
    /// while `window` is open.
    pub fn new(reader: ReadCursor, server: PeerAddress, window: LivenessWindow) -> (r: ClientSystem)
        ensures
            r.cursor() == reader,
            r.server() == server,
            r.window() == window,
    {
        ClientSystem { reader, server, window }
    }

    /// The messages to hand to the transport on this tick, in order.
    pub fn tick(&self, tick: &SimulationTick) -> (r: Vec<OutboundMessage>)
        ensures
            message_views(r@) == client_sends(
                self.server(),
                self.window(),
                tick.absolute_time_ns as nat,
                tick.frames@,
            ),
            self.window().is_open(tick.absolute_time_ns as nat) ==> r@.len() == 0,
            !self.window().is_open(tick.absolute_time_ns as nat) ==> {
                &&& r@.len() == tick.frames@.len()
                &&& forall|i: int|
                    0 <= i < r@.len() ==> #[trigger] r@[i]@ == client_message(
                        self.server(),
                        tick.frames@[i] as nat,
                        tick.absolute_time_ns as nat,
                    )
            },
    {
        let mut out: Vec<OutboundMessage> = Vec::new();
        let t = tick.absolute_time_ns;
        if self.window.suppresses(t) {
            proof {
                assert(message_views(out@) =~= Seq::<OutboundView>::empty());
            }
            return out;
        }
        let ghost want = tick.frames@.map_values(
            |f: u32| client_message(self.server, f as nat, t as nat),
        );
        let mut i: usize = 0;
        while i < tick.frames.len()
            invariant
                i <= tick.frames@.len(),
                want.len() == tick.frames@.len(),
                forall|j: int|
                    0 <= j < tick.frames@.len() ==> #[trigger] want[j] == client_message(
                        self.server,
                        tick.frames@[j] as nat,
                        t as nat,
                    ),
                message_views(out@) == want.subrange(0, i as int),
            decreases tick.frames@.len() - i,
        {
            let frame = tick.frames[i];
            let msg = OutboundMessage {
                destination: self.server,
                payload: frame_payload(frame, t),
                delivery: DELIVERY_REQUIREMENT,
                urgency: URGENCY_REQUIREMENT,
            };
            let ghost prev = out@;
            out.push(msg);
            proof {
                assert(message_views(out@) =~= message_views(prev).push(msg@));
                assert(want[i as int] == msg@);
                assert(message_views(out@) =~= want.subrange(0, i + 1));
            }
            i = i + 1;
        }
        proof {
            assert(want.subrange(0, i as int) =~= want);
            assert(message_views(out@).len() == out@.len());
            assert forall|j: int| 0 <= j < out@.len() implies #[trigger] out@[j]@ == client_message(
                self.server,
                tick.frames@[j] as nat,
                t as nat,
            ) by {
                assert(message_views(out@)[j] == out@[j]@);
            }
        }
        out
    }

    /// The events published since the client last read, in order; the
    /// client's cursor moves past them.
    pub fn drain_events(&mut self, stream: &EventStream) -> (r: Vec<InboundEvent>)
        requires
            stream.wf(),
        ensures
            views(r@) == stream.pending(old(self).cursor()),
            old(self).cursor().position() <= stream.log().len()
                ==> final(self).cursor().position() == stream.log().len(),
            final(self).server() == old(self).server(),
            final(self).window() == old(self).window(),
    {
        stream.read(&mut self.reader)
    }
}

} // verus!
