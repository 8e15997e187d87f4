//! Whole runs of the relay: what holds of a message whatever events are
//! reported for it, in whatever order.
//!
//! A run starts from a message as [`Relay::accept`](crate::relay::Relay::accept)
//! returns it and reports a sequence of events, each through
//! [`InFlight::step`](crate::relay::InFlight::step). The theorems below are
//! stated over [`FlightView::after`] and [`FlightView::planned`], which say
//! what `step` returns.

use crate::classifier::ClassificationResult;
use crate::message::Transport;
use crate::relay::{
    acknowledgment, outbound_for, Event, FlightView, Phase, Plan, STATUS_BAD_REQUEST, STATUS_OK,
};
use vstd::prelude::*;
use vstd::utf8::valid_utf8;

verus! {

/// The state of a message after `events` were reported one after another,
/// starting from `start`.
pub open spec fn flight_after(start: FlightView, events: Seq<Event>) -> FlightView
    decreases events.len(),
{
    if events.len() == 0 {
        start
    } else {
        flight_after(start, events.drop_last()).after(events.last())
    }
}

/// What the relay asks for when the event at position `at` is reported.
pub open spec fn plan_at(start: FlightView, events: Seq<Event>, at: int) -> Plan
    recommends
        0 <= at < events.len(),
{
    flight_after(start, events.take(at)).planned(events[at])
}

/// How far a phase is along the way; no step ever lowers it.
pub open spec fn progress(phase: Phase) -> int {
    match phase {
        Phase::Received => 0,
        Phase::Classified { .. } => 1,
        Phase::Forwarding => 2,
        Phase::FilteredOut => 3,
        Phase::Forwarded => 3,
        Phase::ForwardFailed => 3,
    }
}

/// Reporting one more event is one more step.
pub proof fn lemma_one_more_event(start: FlightView, events: Seq<Event>, at: int)
    requires
        0 <= at < events.len(),
    ensures
        flight_after(start, events.take(at + 1)) == flight_after(start, events.take(at)).after(
            events[at],
        ),
{
    assert(events.take(at + 1).drop_last() =~= events.take(at));
}

/// A run changes nothing but the phase. What it records of the classification
/// is the classification, and it goes past classification only the way the
/// classification allows.
pub proof fn lemma_run_keeps_message(start: FlightView, events: Seq<Event>)
    requires
        start.phase == Phase::Received,
    ensures
        flight_after(start, events) == (FlightView {
            phase: flight_after(start, events).phase,
            ..start
        }),
        flight_after(start, events).phase matches Phase::Classified { text, result } ==> text
            == valid_utf8(start.message.raw_bytes) && result == start.verdict(),
        flight_after(start, events).phase == Phase::FilteredOut ==> !start.relay.admits(
            start.verdict(),
        ),
        progress(flight_after(start, events).phase) >= 2 && flight_after(start, events).phase
            != Phase::FilteredOut ==> start.relay.admits(start.verdict()),
    decreases events.len(),
{
    if events.len() > 0 {
        lemma_run_keeps_message(start, events.drop_last());
    }
}

/// Progress never goes back: a longer run is at least as far as any of its
/// beginnings.
pub proof fn lemma_progress_grows(start: FlightView, events: Seq<Event>, early: int, late: int)
    requires
        0 <= early <= late <= events.len(),
    ensures
        progress(flight_after(start, events.take(early)).phase) <= progress(
            flight_after(start, events.take(late)).phase,
        ),
    decreases late - early,
{
    if early < late {
        lemma_progress_grows(start, events, early, late - 1);
        lemma_one_more_event(start, events, late - 1);
    }
}

/// A run that is past classification without having been dropped has asked
/// for a forward on the way.
pub proof fn lemma_forward_was_asked(start: FlightView, events: Seq<Event>, upto: int)
    requires
        0 <= upto <= events.len(),
        start.phase == Phase::Received,
        progress(flight_after(start, events.take(upto)).phase) >= 2,
        flight_after(start, events.take(upto)).phase != Phase::FilteredOut,
    ensures
        exists|j: int| 0 <= j < upto && #[trigger] plan_at(start, events, j) is Forward,
    decreases upto,
{
    if upto > 0 {
        lemma_one_more_event(start, events, upto - 1);
        let before = flight_after(start, events.take(upto - 1));
        if progress(before.phase) >= 2 && before.phase != Phase::FilteredOut {
            lemma_forward_was_asked(start, events, upto - 1);
        } else {
            assert(plan_at(start, events, upto - 1) is Forward);
        }
    }
}

/// Two steps take every accepted message to the point where it is either
/// dropped or handed to the egress forwarder.
pub proof fn two_steps_decide(start: FlightView)
    requires
        start.fresh(),
    ensures
        flight_after(start, seq![Event::Advance, Event::Advance]).phase == if start.relay.admits(
            start.verdict(),
        ) {
            Phase::Forwarding
        } else {
            Phase::FilteredOut
        },
        plan_at(start, seq![Event::Advance, Event::Advance], 1) == if start.relay.admits(
            start.verdict(),
        ) {
            Plan::Forward(
                outbound_for(start.relay, start.message, valid_utf8(start.message.raw_bytes)),
            )
        } else {
            acknowledgment(start.message)
        },
{
    let events = seq![Event::Advance, Event::Advance];
    lemma_one_more_event(start, events, 0);
    lemma_one_more_event(start, events, 1);
}

/// Round trip: whenever the relay hands a message to the egress forwarder, it
/// hands over the inbound bytes unchanged, bound for the relay's egress, and
/// announced as JSON exactly when the bytes are well-formed UTF-8.
pub proof fn forward_carries_payload(start: FlightView, events: Seq<Event>, at: int)
    requires
        start.fresh(),
        0 <= at < events.len(),
    ensures
        plan_at(start, events, at) matches Plan::Forward(outbound) ==> {
            &&& outbound.raw_bytes == start.message.raw_bytes
            &&& outbound == outbound_for(
                start.relay,
                start.message,
                valid_utf8(start.message.raw_bytes),
            )
        },
{
    lemma_run_keeps_message(start, events.take(at));
}

/// Under the strict filter a message that is no log record is never handed to
/// the egress forwarder and never reaches a forwarding phase.
pub proof fn filtered_message_is_never_forwarded(start: FlightView, events: Seq<Event>, at: int)
    requires
        start.fresh(),
        start.relay.filters(),
        start.verdict() != ClassificationResult::Structured,
        0 <= at < events.len(),
    ensures
        !(plan_at(start, events, at) is Forward),
        flight_after(start, events).phase != Phase::Forwarding,
        flight_after(start, events).phase != Phase::Forwarded,
        flight_after(start, events).phase != Phase::ForwardFailed,
{
    lemma_run_keeps_message(start, events.take(at));
    lemma_run_keeps_message(start, events);
}

/// Under the strict filter a message that is no log record is dropped by the
/// step that follows its classification, and that step asks for the
/// acknowledgment owed to the ingress: the delivery's tag where it has one.
pub proof fn filtered_message_is_acknowledged(start: FlightView, events: Seq<Event>, at: int)
    requires
        start.fresh(),
        start.relay.filters(),
        start.verdict() != ClassificationResult::Structured,
        0 <= at < events.len(),
        flight_after(start, events.take(at)).phase is Classified,
        events[at] == Event::Advance,
    ensures
        flight_after(start, events.take(at + 1)).phase == Phase::FilteredOut,
        plan_at(start, events, at) == (match start.message.ack_handle {
            Some(tag) => Plan::Acknowledge(tag),
            None => Plan::Rest,
        }),
{
    lemma_run_keeps_message(start, events.take(at));
    lemma_one_more_event(start, events, at);
}

/// Where the message is not one that the strict filter drops, an
/// acknowledgment is asked for only when the egress forwarder has reported
/// success for a forward that was asked for earlier in the run, and only under
/// the delivery's own tag. It is never asked for before the forward.
pub proof fn acknowledgment_follows_forward(start: FlightView, events: Seq<Event>, at: int)
    requires
        start.fresh(),
        start.relay.admits(start.verdict()),
        0 <= at < events.len(),
        plan_at(start, events, at) is Acknowledge,
    ensures
        start.message.source_transport == Transport::Amqp,
        start.message.ack_handle == Some(plan_at(start, events, at)->Acknowledge_0),
        events[at] is ForwardSucceeded,
        flight_after(start, events.take(at)).phase == Phase::Forwarding,
        exists|j: int| 0 <= j < at && #[trigger] plan_at(start, events, j) is Forward,
{
    lemma_run_keeps_message(start, events.take(at));
    lemma_forward_was_asked(start, events, at);
}

/// An HTTP request is answered only once its forward has been reported on,
/// and the answer tells the outcome: the status of the egress response, or
/// 200 where the egress has none, after a success; 400 after a failure.
pub proof fn response_tells_outcome(start: FlightView, events: Seq<Event>, at: int)
    requires
        start.fresh(),
        0 <= at < events.len(),
        plan_at(start, events, at) is Respond,
    ensures
        start.message.source_transport == Transport::Http,
        plan_at(start, events, at)->Respond_0 == (match events[at] {
            Event::ForwardSucceeded { status: Some(code) } => code,
            Event::ForwardSucceeded { status: None } => STATUS_OK,
            _ => STATUS_BAD_REQUEST,
        }),
        events[at] is ForwardSucceeded || events[at] is ForwardFailed,
        exists|j: int| 0 <= j < at && #[trigger] plan_at(start, events, j) is Forward,
{
    lemma_run_keeps_message(start, events.take(at));
    lemma_forward_was_asked(start, events, at);
}

/// Each message is handed to the egress forwarder at most once, and nothing
/// is asked for a message once it is acknowledged or answered.
pub proof fn at_most_once(start: FlightView, events: Seq<Event>, early: int, late: int)
    requires
        0 <= early < late < events.len(),
    ensures
        !(plan_at(start, events, early) is Forward && plan_at(start, events, late) is Forward),
        plan_at(start, events, early) is Acknowledge || plan_at(start, events, early) is Respond
            ==> plan_at(start, events, late) == Plan::Rest,
{
    lemma_one_more_event(start, events, early);
    lemma_progress_grows(start, events, early + 1, late);
}

} // verus!
