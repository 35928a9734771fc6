//! The delivery loop: what is done with each message taken from the queue.
//!
//! The loop looks at the queue, publishes what it finds, and rests. Nothing
//! that happens to a message ends the loop: a publish that fails is not
//! tried again, and the next look at the queue comes after the same rest.

use vstd::prelude::*;
use crate::message::{Message, MessageView};

verus! {

/// Seconds that the delivery loop rests after each look at the queue,
/// whether or not the look yielded a message.
pub const DELIVERY_INTERVAL_SECS: u64 = 60;

/// Delivery guarantee asked of the broker for one message.
#[derive(Clone, Copy, Debug, PartialEq, Eq, Structural)]
pub enum QoS {
    AtMostOnce,
    AtLeastOnce,
    ExactlyOnce,
}

/// Mathematical content of a publish call.
pub struct PublishView {
    pub topic: Seq<char>,
    pub qos: QoS,
    pub retain: bool,
    pub payload: Seq<char>,
}

/// Arguments of one publish call on the broker connection.
#[derive(Debug)]
pub struct Publish {
    pub topic: String,
    pub qos: QoS,
    pub retain: bool,
    pub payload: String,
}

impl View for Publish {
    type V = PublishView;

    open spec fn view(&self) -> PublishView {
        PublishView {
            topic: self.topic@,
            qos: self.qos,
            retain: self.retain,
            payload: self.payload@,
        }
    }
}

impl Clone for Publish {
    fn clone(&self) -> (copy: Self)
        ensures
            copy == *self,
    {
        Publish {
            topic: self.topic.clone(),
            qos: self.qos,
            retain: self.retain,
            payload: self.payload.clone(),
        }
    }
}

impl PartialEq for Publish {
    fn eq(&self, other: &Self) -> (equal: bool) {
        self.topic == other.topic && self.qos == other.qos && self.retain == other.retain
            && self.payload == other.payload
    }
}

impl vstd::std_specs::cmp::PartialEqSpecImpl for Publish {
    open spec fn obeys_eq_spec() -> bool {
        true
    }

    open spec fn eq_spec(&self, other: &Self) -> bool {
        self@ == other@
    }
}

impl MessageView {
    /// The publish call that delivers the message: its topic, payload and
    /// retain flag as they stand, at least once.
    pub open spec fn publish(self) -> PublishView {
        PublishView {
            topic: self.topic,
            qos: QoS::AtLeastOnce,
            retain: self.retain,
            payload: self.payload,
        }
    }
}

/// The publish call that delivers `message`.
pub fn publish_request(message: Message) -> (request: Publish)
    ensures
        request@ == message@.publish(),
{
    Publish {
        topic: message.topic,
        qos: QoS::AtLeastOnce,
        retain: message.retain,
        payload: message.payload,
    }
}

/// What the delivery loop meets.
#[derive(Debug)]
pub enum DeliveryEvent {
    /// A look at the queue came back, with a message or without one.
    Dequeued(Option<Message>),
    /// A publish call came back; `true` where the broker client took it.
    Published(bool),
}

/// What the delivery loop does next.
#[derive(Debug)]
pub enum DeliveryAction {
    /// Make this publish call, and report how it went.
    Publish(Publish),
    /// Rest for this many seconds, then look at the queue again.
    Rest(u64),
}

/// Mathematical content of a `DeliveryAction`.
pub enum DeliveryActionView {
    Publish(PublishView),
    Rest(u64),
}

impl View for DeliveryAction {
    type V = DeliveryActionView;

    open spec fn view(&self) -> DeliveryActionView {
        match self {
            DeliveryAction::Publish(request) => DeliveryActionView::Publish(request@),
            DeliveryAction::Rest(seconds) => DeliveryActionView::Rest(*seconds),
        }
    }
}

impl PartialEq for DeliveryAction {
    fn eq(&self, other: &Self) -> (equal: bool) {
        match (self, other) {
            (DeliveryAction::Publish(a), DeliveryAction::Publish(b)) => *a == *b,
            (DeliveryAction::Rest(a), DeliveryAction::Rest(b)) => *a == *b,
            _ => false,
        }
    }
}

impl vstd::std_specs::cmp::PartialEqSpecImpl for DeliveryAction {
    open spec fn obeys_eq_spec() -> bool {
        true
    }

    open spec fn eq_spec(&self, other: &Self) -> bool {
        self@ == other@
    }
}

/// Mathematical content of a `DeliveryEvent`.
pub enum DeliveryEventView {
    Dequeued(Option<MessageView>),
    Published(bool),
}

impl View for DeliveryEvent {
    type V = DeliveryEventView;

    open spec fn view(&self) -> DeliveryEventView {
        match self {
            DeliveryEvent::Dequeued(Some(message)) => DeliveryEventView::Dequeued(Some(message@)),
            DeliveryEvent::Dequeued(None) => DeliveryEventView::Dequeued(None),
            DeliveryEvent::Published(taken) => DeliveryEventView::Published(*taken),
        }
    }
}

impl DeliveryEventView {
    /// The rule of the delivery loop. A message from the queue is
    /// published; an empty look, and the return of a publish call however
    /// it went, are followed by the rest.
    pub open spec fn step(self) -> DeliveryActionView {
        match self {
            DeliveryEventView::Dequeued(Some(message)) => DeliveryActionView::Publish(
                message.publish(),
            ),
            DeliveryEventView::Dequeued(None) => DeliveryActionView::Rest(DELIVERY_INTERVAL_SECS),
            DeliveryEventView::Published(_) => DeliveryActionView::Rest(DELIVERY_INTERVAL_SECS),
        }
    }
}

/// Decides what the delivery loop does after `event`.
pub fn delivery_step(event: DeliveryEvent) -> (action: DeliveryAction)
    ensures
        action@ == event@.step(),
{
    match event {
        DeliveryEvent::Dequeued(Some(message)) => DeliveryAction::Publish(publish_request(message)),
        DeliveryEvent::Dequeued(None) => DeliveryAction::Rest(DELIVERY_INTERVAL_SECS),
        DeliveryEvent::Published(_) => DeliveryAction::Rest(DELIVERY_INTERVAL_SECS),
    }
}

} // verus!
