//! A client/server messaging session paced by a simulation clock.
//!
//! The library holds the decisions of both roles as verified functions over
//! plain values: which messages the client sends on a tick, which events a
//! reader drains from the inbound stream, and which acknowledgments the server
//! sends back. Driving the transport and the clock is left to the caller.
mod client;
mod dispatch;
mod encode;
mod model;
mod server;

pub use client::{
    client_message, client_payload, client_sends, frame_payload, ClientSystem, LivenessWindow,
    SimulationTick, DELIVERY_REQUIREMENT, FRAME_TAG, NANOS_PER_SECOND, TIME_TAG,
    URGENCY_REQUIREMENT,
};
pub use dispatch::{lemma_drain_again, lemma_readers_independent, EventStream, ReadCursor};
pub use encode::{decimal, push_decimal};
pub use model::{
    is_failure, message_views, views, Delivery, EventView, InboundEvent, OutboundMessage,
    OutboundView, PeerAddress, Severity, Urgency,
};
pub use server::{
    ack_payload, ack_to, acknowledge, acknowledgment, acknowledgments, is_message,
    lemma_one_ack_per_message, sender, ServerDrain, ServerSystem,
};
