//! Messages as they enter and leave the relay.

use vstd::prelude::*;

verus! {

/// The kinds of transport a relay can stand between.
#[derive(Clone, Copy, Debug, PartialEq, Eq, Structural)]
pub enum Transport {
    /// An HTTP push endpoint.
    Http,
    /// An AMQP exchange and queue.
    Amqp,
    /// An MQTT broker.
    Mqtt,
}

/// What an [`InboundMessage`] stands for.
pub struct InboundView {
    pub raw_bytes: Seq<u8>,
    pub source_transport: Transport,
    pub ack_handle: Option<u64>,
}

/// One delivery taken from the ingress transport.
#[derive(Debug, PartialEq, Eq)]
pub struct InboundMessage {
    /// The payload exactly as it was delivered.
    pub raw_bytes: Vec<u8>,
    /// The transport the delivery came from.
    pub source_transport: Transport,
    /// The broker's tag for the delivery, where the transport expects an
    /// acknowledgment.
    pub ack_handle: Option<u64>,
}

impl View for InboundMessage {
    type V = InboundView;

    open spec fn view(&self) -> InboundView {
        InboundView {
            raw_bytes: self.raw_bytes@,
            source_transport: self.source_transport,
            ack_handle: self.ack_handle,
        }
    }
}

impl InboundMessage {
    /// The body of one HTTP request. The response is its acknowledgment, so it
    /// carries no handle.
    pub fn from_http(body: Vec<u8>) -> (message: InboundMessage)
        ensures
            message@ == (InboundView {
                raw_bytes: body@,
                source_transport: Transport::Http,
                ack_handle: None,
            }),
    {
        InboundMessage { raw_bytes: body, source_transport: Transport::Http, ack_handle: None }
    }

    /// One AMQP delivery, to be acknowledged under `delivery_tag`.
    pub fn from_amqp(data: Vec<u8>, delivery_tag: u64) -> (message: InboundMessage)
        ensures
            message@ == (InboundView {
                raw_bytes: data@,
                source_transport: Transport::Amqp,
                ack_handle: Some(delivery_tag),
            }),
    {
        InboundMessage {
            raw_bytes: data,
            source_transport: Transport::Amqp,
            ack_handle: Some(delivery_tag),
        }
    }

    /// The payload of one MQTT publication. MQTT subscriptions are not
    /// acknowledged by the relay, so it carries no handle.
    pub fn from_mqtt(payload: Vec<u8>) -> (message: InboundMessage)
        ensures
            message@ == (InboundView {
                raw_bytes: payload@,
                source_transport: Transport::Mqtt,
                ack_handle: None,
            }),
    {
        InboundMessage { raw_bytes: payload, source_transport: Transport::Mqtt, ack_handle: None }
    }
}

/// What an [`OutboundMessage`] stands for.
pub struct OutboundView {
    pub raw_bytes: Seq<u8>,
    pub content_type: Seq<char>,
    pub destination_transport: Transport,
}

/// One message on its way to the egress transport.
#[derive(Debug, PartialEq, Eq)]
pub struct OutboundMessage {
    /// The payload to send.
    pub raw_bytes: Vec<u8>,
    /// The media type to announce where the transport has a place for one.
    pub content_type: &'static str,
    /// The transport the message leaves through.
    pub destination_transport: Transport,
}

impl View for OutboundMessage {
    type V = OutboundView;

    open spec fn view(&self) -> OutboundView {
        OutboundView {
            raw_bytes: self.raw_bytes@,
            content_type: self.content_type@,
            destination_transport: self.destination_transport,
        }
    }
}

} // verus!
