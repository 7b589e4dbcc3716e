//! Verified core of a register-polling telemetry bridge.
//!
//! The library decodes raw device registers into scaled values, builds the
//! descriptor and state messages that an observing system needs to
//! auto-discover each value, and models the decision logic of the polling
//! engine, the discovery scanner and the publishing actor.  All I/O (the
//! field-bus transport, the messaging bus, timers) lives outside the library
//! and hands plain values in and out.

pub mod consts;
pub mod decode;
pub mod mqtt_actor;
pub mod mqtt_handler;
pub mod payload;
pub mod poll;
pub mod scanner;
pub mod structs;
