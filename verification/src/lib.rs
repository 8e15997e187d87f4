//! Relay core for log records travelling between an HTTP push endpoint, an
//! AMQP queue and an MQTT broker.
//!
//! The crate holds the decisions of a relay: how a payload is classified,
//! whether it is forwarded, with which content type, and when its delivery is
//! acknowledged. Sockets, brokers and the event loop belong to the caller,
//! which performs the actions this crate selects and reports what happened.

pub mod classifier;
pub mod egress;
pub mod handoff;
pub mod message;
pub mod probe;
pub mod relay;
pub mod settings;
pub mod shapes;
pub mod text;
pub mod trace;
