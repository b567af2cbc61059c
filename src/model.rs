use vstd::prelude::*;

verus! {

/// A network endpoint: an IPv4 or IPv6 address with a port.
///
/// An IPv4 address is held in the low 32 bits of `ip`.
#[derive(Clone, Copy, Debug, PartialEq, Eq, Structural, Hash)]
pub struct PeerAddress {
    pub v6: bool,
    pub ip: u128,
    pub port: u16,
}

/// Whether a message must arrive, and whether its order is kept.
#[derive(Clone, Copy, Debug, PartialEq, Eq, Structural, Hash)]
pub enum Delivery {
    Unreliable,
    UnreliableSequenced,
    Reliable,
    ReliableSequenced,
    ReliableOrdered,
    /// Left to the transport to choose.
    Unspecified,
}

/// Whether a message is flushed at once or batched until the next tick.
#[derive(Clone, Copy, Debug, PartialEq, Eq, Structural, Hash)]
pub enum Urgency {
    OnTick,
    Immediate,
}

/// A message handed to the transport.
#[derive(Debug)]
pub struct OutboundMessage {
    pub destination: PeerAddress,
    pub payload: Vec<u8>,
    pub delivery: Delivery,
    pub urgency: Urgency,
}

/// The mathematical value of an [`OutboundMessage`].
pub ghost struct OutboundView {
    pub destination: PeerAddress,
    pub payload: Seq<u8>,
    pub delivery: Delivery,
    pub urgency: Urgency,
}

impl View for OutboundMessage {
    type V = OutboundView;

    open spec fn view(&self) -> OutboundView {
        OutboundView {
            destination: self.destination,
            payload: self.payload@,
            delivery: self.delivery,
            urgency: self.urgency,
        }
    }
}

impl OutboundMessage {
    /// A copy with the same value.
    pub fn duplicate(&self) -> (r: OutboundMessage)
        ensures
            r@ == self@,
    {
        OutboundMessage {
            destination: self.destination,
            payload: self.payload.clone(),
            delivery: self.delivery,
            urgency: self.urgency,
        }
    }
}

/// An event produced by the transport.
#[derive(Debug)]
pub enum InboundEvent {
    /// A message arrived from a peer.
    MessageReceived(PeerAddress, Vec<u8>),
    /// A peer connected.
    PeerConnected(PeerAddress),
    /// A peer disconnected.
    PeerDisconnected(PeerAddress),
    /// Receiving failed; the text describes the error.
    ReceiveFailed(String),
    /// Sending failed; the text describes the error, and the message is the one
    /// that was not sent.
    SendFailed(String, OutboundMessage),
    /// Managing a connection failed, with the peer where one is known.
    ConnectionFailed(String, Option<PeerAddress>),
}

/// The mathematical value of an [`InboundEvent`].
pub ghost enum EventView {
    MessageReceived(PeerAddress, Seq<u8>),
    PeerConnected(PeerAddress),
    PeerDisconnected(PeerAddress),
    ReceiveFailed(Seq<char>),
    SendFailed(Seq<char>, OutboundView),
    ConnectionFailed(Seq<char>, Option<PeerAddress>),
}

impl View for InboundEvent {
    type V = EventView;

    open spec fn view(&self) -> EventView {
        match self {
            InboundEvent::MessageReceived(a, p) => EventView::MessageReceived(*a, p@),
            InboundEvent::PeerConnected(a) => EventView::PeerConnected(*a),
            InboundEvent::PeerDisconnected(a) => EventView::PeerDisconnected(*a),
            InboundEvent::ReceiveFailed(e) => EventView::ReceiveFailed(e@),
            InboundEvent::SendFailed(e, m) => EventView::SendFailed(e@, m@),
            InboundEvent::ConnectionFailed(e, a) => EventView::ConnectionFailed(e@, *a),
        }
    }
}

impl InboundEvent {
    /// A copy with the same value.
    pub fn duplicate(&self) -> (r: InboundEvent)
        ensures
            r@ == self@,
    {
        match self {
            InboundEvent::MessageReceived(a, p) => InboundEvent::MessageReceived(*a, p.clone()),
            InboundEvent::PeerConnected(a) => InboundEvent::PeerConnected(*a),
            InboundEvent::PeerDisconnected(a) => InboundEvent::PeerDisconnected(*a),
            InboundEvent::ReceiveFailed(e) => InboundEvent::ReceiveFailed(e.clone()),
            InboundEvent::SendFailed(e, m) => InboundEvent::SendFailed(e.clone(), m.duplicate()),
            InboundEvent::ConnectionFailed(e, a) => InboundEvent::ConnectionFailed(e.clone(), *a),
        }
    }
}

} // verus!

verus! {

/// The values of a sequence of events.
pub open spec fn views(s: Seq<InboundEvent>) -> Seq<EventView> {
    s.map_values(|e: InboundEvent| e@)
}

/// The values of a sequence of outbound messages.
pub open spec fn message_views(s: Seq<OutboundMessage>) -> Seq<OutboundView> {
    s.map_values(|m: OutboundMessage| m@)
}

/// How loudly an event is reported.
#[derive(Clone, Copy, Debug, PartialEq, Eq, Structural, Hash)]
pub enum Severity {
    Info,
    Error,
}

/// Whether `e` reports a failure of the transport.
pub open spec fn is_failure(e: EventView) -> bool {
    e is ReceiveFailed || e is SendFailed || e is ConnectionFailed
}

impl InboundEvent {
    /// How loudly this event is reported: failures as errors, the rest as
    /// information.
    pub fn severity(&self) -> (r: Severity)
        ensures
            r == (if is_failure(self@) {
                Severity::Error
            } else {
                Severity::Info
            }),
    {
        match self {
            InboundEvent::ReceiveFailed(_) => Severity::Error,
            InboundEvent::SendFailed(_, _) => Severity::Error,
            InboundEvent::ConnectionFailed(_, _) => Severity::Error,
            _ => Severity::Info,
        }
    }
}

} // verus!
