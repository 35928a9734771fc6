//! Core of a host agent that samples the local battery and republishes its
//! state on an MQTT bus, announcing the sensor through Home Assistant
//! discovery.
//!
//! The crate holds the decisions of the agent: change detection, topic and
//! payload construction, and the order in which messages leave. Sampling the
//! sensor, the broker connection and the clock belong to the program around it.

pub mod agent;
pub mod charge;
pub mod delivery;
pub mod discovery;
mod host;
pub mod json;
pub mod message;
pub mod number;
pub mod settings;
