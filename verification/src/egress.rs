//! What each egress forwarder sends: the request, publication or message that
//! an outbound message becomes on its transport.

use crate::message::{OutboundMessage, OutboundView, Transport};
use crate::relay::Relay;
use crate::settings::Qos;
use vstd::prelude::*;
use vstd::string::StringExecFns;

verus! {

/// Whether the URI parser of the `http` crate accepts `text`.
pub uninterp spec fn uri_parses(text: Seq<char>) -> bool;

/// `<http::Uri as FromStr>::from_str`, asked only whether it accepts `text`.
///
/// The parser reads nothing but its argument, so the answer is the same for
/// the same text: that is all this contract claims.
#[verifier::external_body]
fn uri_accepts(text: &str) -> (accepted: bool)
    ensures
        accepted == uri_parses(text@),
{
    text.parse::<http::Uri>().is_ok()
}

/// `target` where it is a URI, nothing where it is not.
pub fn target_when(parses: bool, target: String) -> (chosen: Option<String>)
    ensures
        chosen == if parses {
            Some(target)
        } else {
            None
        },
{
    if parses {
        Some(target)
    } else {
        None
    }
}

/// The URI an HTTP request is passed on to: the gateway's address followed by
/// the request's own path and query. Nothing where the two do not make a URI.
pub fn forward_target(base: &str, path_and_query: &str) -> (target: Option<String>)
    ensures
        target is Some <==> uri_parses(base@ + path_and_query@),
        target matches Some(uri) ==> uri@ == base@ + path_and_query@,
{
    let joined = base.to_owned().concat(path_and_query);
    let parses = uri_accepts(joined.as_str());
    target_when(parses, joined)
}

/// Where a relay sends to.
#[derive(Debug, PartialEq, Eq)]
pub enum Destination {
    /// An HTTP endpoint that takes pushes at `url`.
    Http { url: String },
    /// An AMQP exchange, and the queue that publications are routed to.
    Amqp { exchange: String, queue: String },
    /// An MQTT topic.
    Mqtt { topic: String },
}

impl Destination {
    /// The transport this destination is reached through.
    pub open spec fn via(self) -> Transport {
        match self {
            Destination::Http { .. } => Transport::Http,
            Destination::Amqp { .. } => Transport::Amqp,
            Destination::Mqtt { .. } => Transport::Mqtt,
        }
    }

    /// The transport this destination is reached through.
    pub fn transport(&self) -> (transport: Transport)
        ensures
            transport == self.via(),
    {
        match self {
            Destination::Http { .. } => Transport::Http,
            Destination::Amqp { .. } => Transport::Amqp,
            Destination::Mqtt { .. } => Transport::Mqtt,
        }
    }
}

/// What a [`Dispatch`] stands for.
pub enum DispatchView {
    HttpPost { url: Seq<char>, content_type: Seq<char>, user_agent: Seq<char>, body: Seq<u8> },
    AmqpPublish { exchange: Seq<char>, routing_key: Seq<char>, body: Seq<u8> },
    MqttPublish { topic: Seq<char>, qos: Qos, body: Seq<u8> },
}

/// One send on the egress transport.
#[derive(Debug, PartialEq, Eq)]
pub enum Dispatch {
    /// A POST to `url` with the headers `content-type` and `user-agent`.
    HttpPost { url: String, content_type: &'static str, user_agent: &'static str, body: Vec<u8> },
    /// A publication to `exchange` under `routing_key`, with default
    /// properties.
    AmqpPublish { exchange: String, routing_key: String, body: Vec<u8> },
    /// A message on `topic`.
    MqttPublish { topic: String, qos: Qos, body: Vec<u8> },
}

impl View for Dispatch {
    type V = DispatchView;

    open spec fn view(&self) -> DispatchView {
        match self {
            Dispatch::HttpPost { url, content_type, user_agent, body } => DispatchView::HttpPost {
                url: url@,
                content_type: content_type@,
                user_agent: user_agent@,
                body: body@,
            },
            Dispatch::AmqpPublish { exchange, routing_key, body } => DispatchView::AmqpPublish {
                exchange: exchange@,
                routing_key: routing_key@,
                body: body@,
            },
            Dispatch::MqttPublish { topic, qos, body } => DispatchView::MqttPublish {
                topic: topic@,
                qos: *qos,
                body: body@,
            },
        }
    }
}

/// The send that `outbound` becomes at `destination`.
///
/// Over HTTP the payload is posted under its content type, with the relay's
/// name as user agent. Over AMQP it is published to the exchange with the
/// queue's name as routing key. Over MQTT it is published at most once.
pub open spec fn dispatch_of(
    relay: Relay,
    destination: Destination,
    outbound: OutboundView,
) -> DispatchView {
    match destination {
        Destination::Http { url } => DispatchView::HttpPost {
            url: url@,
            content_type: outbound.content_type,
            user_agent: relay.agent(),
            body: outbound.raw_bytes,
        },
        Destination::Amqp { exchange, queue } => DispatchView::AmqpPublish {
            exchange: exchange@,
            routing_key: queue@,
            body: outbound.raw_bytes,
        },
        Destination::Mqtt { topic } => DispatchView::MqttPublish {
            topic: topic@,
            qos: Qos::AtMostOnce,
            body: outbound.raw_bytes,
        },
    }
}

/// Turns `outbound` into the send for `destination`. Nothing is sent where
/// the message is bound for another transport than the destination's.
pub fn dispatch(relay: &Relay, destination: &Destination, outbound: OutboundMessage) -> (send:
    Option<Dispatch>)
    ensures
        send is Some <==> destination.via() == outbound@.destination_transport,
        send matches Some(found) ==> found@ == dispatch_of(*relay, *destination, outbound@),
{
    if destination.transport() != outbound.destination_transport {
        return None;
    }
    let OutboundMessage { raw_bytes, content_type, destination_transport } = outbound;
    match destination {
        Destination::Http { url } => Some(
            Dispatch::HttpPost {
                url: url.clone(),
                content_type,
                user_agent: relay.name(),
                body: raw_bytes,
            },
        ),
        Destination::Amqp { exchange, queue } => Some(
            Dispatch::AmqpPublish {
                exchange: exchange.clone(),
                routing_key: queue.clone(),
                body: raw_bytes,
            },
        ),
        Destination::Mqtt { topic } => Some(
            Dispatch::MqttPublish { topic: topic.clone(), qos: Qos::AtMostOnce, body: raw_bytes },
        ),
    }
}

} // verus!
