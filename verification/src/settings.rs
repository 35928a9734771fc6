//! Fixed values of the agent: the defaults of its configuration and the pace
//! and room of its connection to the broker.

use vstd::prelude::*;

verus! {

/// Topic under which state is published unless another is configured.
pub const DEFAULT_TOPIC: &'static str = "battery-daemon/status/battery";

/// Host of the broker unless another is configured.
pub const DEFAULT_BROKER_HOST: &'static str = "localhost";

/// Port of the broker unless another is configured.
pub const DEFAULT_BROKER_PORT: u16 = 1883;

/// Seconds of silence after which the connection pings the broker.
pub const KEEP_ALIVE_SECS: u64 = 10;

/// Number of requests that may wait for the connection's event loop.
pub const REQUEST_CAPACITY: usize = 10;

/// Number of state messages that may wait for delivery: close to an hour
/// of readings at one a minute. A message that finds the queue full is
/// dropped; the next change of state is the next attempt.
pub const QUEUE_CAPACITY: usize = 56;

} // verus!
