//! The orchestrator: one message's way from ingress to egress.
//!
//! A relay joins one ingress transport to one egress transport. Each message
//! it accepts passes through the phases of [`Phase`]. [`InFlight::step`] takes
//! what has just happened to the message, and returns the message's next
//! state together with the one thing the caller has to do now.

use crate::classifier::{
    classification, classify_findings, forwarding_content_type, forwarding_type,
    ClassificationResult,
};
use crate::message::{InboundMessage, InboundView, OutboundMessage, OutboundView, Transport};
use crate::shapes::LogMessage;
use crate::text::is_utf8;
use vstd::prelude::*;
use vstd::slice::slice_to_vec;
use vstd::utf8::valid_utf8;

verus! {

/// The status an HTTP ingress answers with when the forward succeeded and the
/// egress transport reported no status of its own.
pub const STATUS_OK: u16 = 200;

/// The status an HTTP ingress answers with when the forward failed.
pub const STATUS_BAD_REQUEST: u16 = 400;

/// The wiring of one relay process: where messages come from, where they go,
/// and whether only log records may pass.
#[derive(Clone, Copy, Debug, PartialEq, Eq, Structural)]
pub struct Relay {
    pub ingress: Transport,
    pub egress: Transport,
    pub strict: bool,
}

/// Where a message stands on its way through the relay.
#[derive(Clone, Copy, Debug, PartialEq, Eq, Structural)]
pub enum Phase {
    /// Taken from the ingress, not yet looked at.
    Received,
    /// Classified; `text` tells whether the payload is well-formed UTF-8.
    Classified { text: bool, result: ClassificationResult },
    /// Dropped by the strict filter. Final.
    FilteredOut,
    /// Handed to the egress forwarder, outcome pending.
    Forwarding,
    /// The egress forwarder reported success. Final.
    Forwarded,
    /// The egress forwarder reported an error. Final.
    ForwardFailed,
}

/// What the caller reports back to the relay.
#[derive(Clone, Copy, Debug, PartialEq, Eq, Structural)]
pub enum Event {
    /// Nothing happened outside; the message may take its next step.
    Advance,
    /// The egress forwarder sent the message. `status` is the status of the
    /// egress response where the egress transport has one.
    ForwardSucceeded { status: Option<u16> },
    /// The egress forwarder could not send the message.
    ForwardFailed,
}

/// What an egress forwarder reports when it has sent a message.
#[derive(Clone, Copy, Debug, PartialEq, Eq, Structural)]
pub struct DeliveryAck {
    /// The status of the egress response, where the egress transport answers
    /// with one. The relay passes it on and does not judge it.
    pub status: Option<u16>,
}

/// What an egress forwarder reports when it could not send a message.
#[derive(Clone, Copy, Debug, PartialEq, Eq, Structural)]
pub struct ForwardError {
    /// The transport that failed.
    pub transport: Transport,
}

impl Event {
    /// The event that stands for a forwarder's report.
    pub open spec fn of(outcome: Result<DeliveryAck, ForwardError>) -> Event {
        match outcome {
            Ok(ack) => Event::ForwardSucceeded { status: ack.status },
            Err(_) => Event::ForwardFailed,
        }
    }

    /// The event that stands for a forwarder's report.
    pub fn from_outcome(outcome: Result<DeliveryAck, ForwardError>) -> (event: Event)
        ensures
            event == Event::of(outcome),
    {
        match outcome {
            Ok(ack) => Event::ForwardSucceeded { status: ack.status },
            Err(_) => Event::ForwardFailed,
        }
    }
}

/// What an [`Action`] stands for.
pub enum Plan {
    Proceed,
    Forward(OutboundView),
    Acknowledge(u64),
    Respond(u16),
    Rest,
}

/// What the caller has to do after a step.
#[derive(Debug, PartialEq, Eq)]
pub enum Action {
    /// Nothing outside; report [`Event::Advance`].
    Proceed,
    /// Hand this message to the egress forwarder and report the outcome.
    Forward(OutboundMessage),
    /// Acknowledge the ingress delivery with this tag.
    Acknowledge(u64),
    /// Answer the ingress request with this status.
    Respond(u16),
    /// Nothing; the step changed nothing outside the relay.
    Rest,
}

impl View for Action {
    type V = Plan;

    open spec fn view(&self) -> Plan {
        match self {
            Action::Proceed => Plan::Proceed,
            Action::Forward(outbound) => Plan::Forward(outbound@),
            Action::Acknowledge(tag) => Plan::Acknowledge(*tag),
            Action::Respond(status) => Plan::Respond(*status),
            Action::Rest => Plan::Rest,
        }
    }
}

/// What an [`InFlight`] stands for.
pub struct FlightView {
    /// The relay that took the message.
    pub relay: Relay,
    pub message: InboundView,
    /// Whether the payload's text decoded as a log record.
    pub record: bool,
    pub phase: Phase,
}

/// One message inside a relay, from acceptance to its final phase.
#[derive(Debug)]
pub struct InFlight {
    relay: Relay,
    message: InboundMessage,
    record: bool,
    phase: Phase,
}

impl View for InFlight {
    type V = FlightView;

    closed spec fn view(&self) -> FlightView {
        FlightView {
            relay: self.relay,
            message: self.message@,
            record: self.record,
            phase: self.phase,
        }
    }
}

/// The acknowledgment owed to the ingress for `message`: AMQP deliveries are
/// acknowledged under their tag, nothing else is.
pub open spec fn acknowledgment(message: InboundView) -> Plan {
    match (message.source_transport, message.ack_handle) {
        (Transport::Amqp, Some(tag)) => Plan::Acknowledge(tag),
        _ => Plan::Rest,
    }
}

/// The message that goes to the egress forwarder: the inbound bytes as they
/// are, announced as JSON when they are text and as opaque bytes otherwise.
pub open spec fn outbound_for(relay: Relay, message: InboundView, text: bool) -> OutboundView {
    OutboundView {
        raw_bytes: message.raw_bytes,
        content_type: forwarding_type(text),
        destination_transport: relay.egress,
    }
}

impl FlightView {
    /// The state of `message` as `relay` takes it.
    pub open spec fn accepted(relay: Relay, message: InboundView, record: bool) -> FlightView {
        FlightView { relay, message, record, phase: Phase::Received }
    }

    /// Whether this is the state of a message that its relay has just taken.
    pub open spec fn fresh(self) -> bool {
        self.phase == Phase::Received && self.message.source_transport == self.relay.ingress
    }

    /// The classification of the message.
    pub open spec fn verdict(self) -> ClassificationResult {
        classification(valid_utf8(self.message.raw_bytes), self.record)
    }

    /// The phase that follows when `event` is reported.
    pub open spec fn next_phase(self, event: Event) -> Phase {
        match (self.phase, event) {
            (Phase::Received, Event::Advance) => {
                let text = valid_utf8(self.message.raw_bytes);
                Phase::Classified { text, result: classification(text, self.record) }
            },
            (Phase::Classified { text, result }, Event::Advance) => {
                if self.relay.admits(result) {
                    Phase::Forwarding
                } else {
                    Phase::FilteredOut
                }
            },
            (Phase::Forwarding, Event::ForwardSucceeded { status }) => Phase::Forwarded,
            (Phase::Forwarding, Event::ForwardFailed) => Phase::ForwardFailed,
            _ => self.phase,
        }
    }

    /// What the caller has to do when `event` is reported.
    pub open spec fn planned(self, event: Event) -> Plan {
        match (self.phase, event) {
            (Phase::Received, Event::Advance) => Plan::Proceed,
            (Phase::Classified { text, result }, Event::Advance) => {
                if self.relay.admits(result) {
                    Plan::Forward(outbound_for(self.relay, self.message, text))
                } else {
                    acknowledgment(self.message)
                }
            },
            (Phase::Forwarding, Event::ForwardSucceeded { status }) => {
                match self.message.source_transport {
                    Transport::Http => Plan::Respond(
                        match status {
                            Some(code) => code,
                            None => STATUS_OK,
                        },
                    ),
                    _ => acknowledgment(self.message),
                }
            },
            (Phase::Forwarding, Event::ForwardFailed) => {
                match self.message.source_transport {
                    Transport::Http => Plan::Respond(STATUS_BAD_REQUEST),
                    _ => Plan::Rest,
                }
            },
            _ => Plan::Rest,
        }
    }

    /// The state after `event` was reported.
    pub open spec fn after(self, event: Event) -> FlightView {
        FlightView { phase: self.next_phase(event), ..self }
    }
}

impl Relay {
    /// Whether this relay drops what is no log record. The strict filter
    /// belongs to the direction from AMQP to HTTP alone.
    pub open spec fn filters(self) -> bool {
        self.strict && self.ingress == Transport::Amqp && self.egress == Transport::Http
    }

    /// Whether a message with this classification is forwarded.
    pub open spec fn admits(self, result: ClassificationResult) -> bool {
        self.filters() ==> result == ClassificationResult::Structured
    }

    /// The name the relay gives itself towards the egress, by the transport
    /// it listens on.
    pub open spec fn agent(self) -> Seq<char> {
        match self.ingress {
            Transport::Http => "oxxy-loxxy"@,
            Transport::Amqp => "oxxy-roxxy"@,
            Transport::Mqtt => "oxxy-moxxy"@,
        }
    }

    /// The name the relay gives itself towards the egress.
    pub fn name(&self) -> (name: &'static str)
        ensures
            name@ == self.agent(),
    {
        match self.ingress {
            Transport::Http => "oxxy-loxxy",
            Transport::Amqp => "oxxy-roxxy",
            Transport::Mqtt => "oxxy-moxxy",
        }
    }

    /// A relay from `ingress` to `egress`.
    pub fn new(ingress: Transport, egress: Transport, strict: bool) -> (relay: Relay)
        ensures
            relay == (Relay { ingress, egress, strict }),
    {
        Relay { ingress, egress, strict }
    }

    /// Whether this relay drops what is no log record.
    pub fn is_filtering(&self) -> (filtering: bool)
        ensures
            filtering == self.filters(),
    {
        self.strict && self.ingress == Transport::Amqp && self.egress == Transport::Http
    }

    /// Takes `message` into the relay. `decoded` is the log record that the
    /// payload's text decoded to, if it did.
    ///
    /// A relay takes what comes from its own ingress. A message from another
    /// transport is handed back as it is.
    pub fn accept(&self, message: InboundMessage, decoded: Option<&LogMessage>) -> (taken: Result<
        InFlight,
        InboundMessage,
    >)
        ensures
            taken is Ok <==> message@.source_transport == self.ingress,
            taken matches Ok(flight) ==> flight@ == FlightView::accepted(
                *self,
                message@,
                decoded is Some,
            ) && flight@.fresh(),
            taken matches Err(back) ==> back@ == message@,
    {
        if message.source_transport == self.ingress {
            Ok(
                InFlight {
                    relay: *self,
                    message,
                    record: decoded.is_some(),
                    phase: Phase::Received,
                },
            )
        } else {
            Err(message)
        }
    }
}

impl InFlight {
    /// The phase the message is in.
    pub fn phase(&self) -> (phase: Phase)
        ensures
            phase == self@.phase,
    {
        self.phase
    }

    /// The message as it was accepted.
    pub fn message(&self) -> (message: &InboundMessage)
        ensures
            message@ == self@.message,
    {
        &self.message
    }

    /// The relay that took the message.
    pub fn relay(&self) -> (relay: Relay)
        ensures
            relay == self@.relay,
    {
        self.relay
    }

    /// Moves the message on by one event.
    ///
    /// The message itself never changes. An event that does not belong to the
    /// phase the message is in changes nothing and asks for nothing.
    pub fn step(self, event: Event) -> (next: (InFlight, Action))
        ensures
            next.0@ == self@.after(event),
            next.1@ == self@.planned(event),
    {
        let InFlight { relay, message, record, phase } = self;
        match (phase, event) {
            (Phase::Received, Event::Advance) => {
                let text = is_utf8(message.raw_bytes.as_slice());
                let result = classify_findings(text, record);
                (
                    InFlight { relay, message, record, phase: Phase::Classified { text, result } },
                    Action::Proceed,
                )
            },
            (Phase::Classified { text, result }, Event::Advance) => {
                if !relay.is_filtering() || result == ClassificationResult::Structured {
                    let outbound = OutboundMessage {
                        raw_bytes: slice_to_vec(message.raw_bytes.as_slice()),
                        content_type: forwarding_content_type(text),
                        destination_transport: relay.egress,
                    };
                    (
                        InFlight { relay, message, record, phase: Phase::Forwarding },
                        Action::Forward(outbound),
                    )
                } else {
                    let action = acknowledge(&message);
                    (InFlight { relay, message, record, phase: Phase::FilteredOut }, action)
                }
            },
            (Phase::Forwarding, Event::ForwardSucceeded { status }) => {
                let action = match message.source_transport {
                    Transport::Http => Action::Respond(
                        match status {
                            Some(code) => code,
                            None => STATUS_OK,
                        },
                    ),
                    _ => acknowledge(&message),
                };
                (InFlight { relay, message, record, phase: Phase::Forwarded }, action)
            },
            (Phase::Forwarding, Event::ForwardFailed) => {
                let action = match message.source_transport {
                    Transport::Http => Action::Respond(STATUS_BAD_REQUEST),
                    _ => Action::Rest,
                };
                (InFlight { relay, message, record, phase: Phase::ForwardFailed }, action)
            },
            _ => (InFlight { relay, message, record, phase }, Action::Rest),
        }
    }
}

/// The acknowledgment owed to the ingress for `message`.
pub fn acknowledge(message: &InboundMessage) -> (action: Action)
    ensures
        action@ == acknowledgment(message@),
{
    match (message.source_transport, message.ack_handle) {
        (Transport::Amqp, Some(tag)) => Action::Acknowledge(tag),
        _ => Action::Rest,
    }
}

} // verus!
