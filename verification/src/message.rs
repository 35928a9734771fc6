//! Outbound messages: what is handed to the broker, and how.

use vstd::prelude::*;
use crate::discovery::{Discovery, DiscoveryPayload, DiscoveryTopic, DiscoveryView};

verus! {

/// Mathematical content of a message, and of its builder.
pub struct MessageView {
    pub topic: Seq<char>,
    pub payload: Seq<char>,
    pub retain: bool,
}

/// A message on its way to the broker.
#[derive(Debug)]
pub struct Message {
    pub topic: String,
    pub payload: String,
    pub retain: bool,
}

impl View for Message {
    type V = MessageView;

    open spec fn view(&self) -> MessageView {
        MessageView { topic: self.topic@, payload: self.payload@, retain: self.retain }
    }
}

impl Clone for Message {
    fn clone(&self) -> (copy: Self)
        ensures
            copy == *self,
    {
        Message {
            topic: self.topic.clone(),
            payload: self.payload.clone(),
            retain: self.retain,
        }
    }
}

impl PartialEq for Message {
    fn eq(&self, other: &Self) -> (equal: bool) {
        self.topic == other.topic && self.payload == other.payload && self.retain == other.retain
    }
}

impl vstd::std_specs::cmp::PartialEqSpecImpl for Message {
    open spec fn obeys_eq_spec() -> bool {
        true
    }

    open spec fn eq_spec(&self, other: &Self) -> bool {
        self@ == other@
    }
}

/// Step-by-step construction of a `Message`.
#[derive(Debug)]
pub struct MessageBuilder {
    pub topic: String,
    pub payload: String,
    pub retain: bool,
}

impl View for MessageBuilder {
    type V = MessageView;

    open spec fn view(&self) -> MessageView {
        MessageView { topic: self.topic@, payload: self.payload@, retain: self.retain }
    }
}

impl MessageBuilder {
    /// A builder with an empty topic, an empty payload, and the retain flag
    /// cleared.
    pub fn new() -> (builder: MessageBuilder)
        ensures
            builder@ == (MessageView {
                topic: Seq::empty(),
                payload: Seq::empty(),
                retain: false,
            }),
    {
        MessageBuilder { topic: String::new(), payload: String::new(), retain: false }
    }

    /// The message that was described.
    pub fn build(self) -> (message: Message)
        ensures
            message@ == self@,
    {
        Message { topic: self.topic, payload: self.payload, retain: self.retain }
    }

    /// Sets the retain flag.
    pub fn retain(self, retain: bool) -> (builder: MessageBuilder)
        ensures
            builder@ == (MessageView { retain, ..self@ }),
    {
        let mut builder = self;
        builder.retain = retain;
        builder
    }

    /// Sets the topic.
    pub fn topic(self, topic: String) -> (builder: MessageBuilder)
        ensures
            builder@ == (MessageView { topic: topic@, ..self@ }),
    {
        let mut builder = self;
        builder.topic = topic;
        builder
    }

    /// Sets the payload.
    pub fn payload(self, payload: String) -> (builder: MessageBuilder)
        ensures
            builder@ == (MessageView { payload: payload@, ..self@ }),
    {
        let mut builder = self;
        builder.payload = payload;
        builder
    }
}

impl DiscoveryView {
    /// The announcement as a message that is not yet marked for retention.
    pub open spec fn message(self) -> MessageView {
        MessageView { topic: self.topic.text(), payload: self.payload.json(), retain: false }
    }
}

impl From<Discovery> for MessageBuilder {
    /// A builder that holds the announcement's topic path and JSON body, with
    /// the retain flag cleared.
    fn from(value: Discovery) -> (builder: MessageBuilder)
        ensures
            builder@ == value@.message(),
    {
        MessageBuilder {
            topic: value.topic.to_string(),
            payload: value.payload.to_string(),
            retain: false,
        }
    }
}

impl vstd::std_specs::convert::FromSpecImpl<Discovery> for MessageBuilder {
    /// The conversion is specified over views, by the `ensures` of `from`:
    /// a string is known by its characters alone.
    open spec fn obeys_from_spec() -> bool {
        false
    }

    open spec fn from_spec(value: Discovery) -> MessageBuilder {
        arbitrary()
    }
}

/// The discovery message for a sensor: the topic path, the descriptor as its
/// body, and the retain flag set, so that a platform that subscribes late
/// still learns of the sensor.
pub fn home_assistant_discovery(topic: DiscoveryTopic, payload: DiscoveryPayload) -> (message:
    Message)
    ensures
        message@ == (MessageView {
            topic: topic@.text(),
            payload: payload@.json(),
            retain: true,
        }),
{
    let discovery = Discovery { topic, payload };
    MessageBuilder::from(discovery).retain(true).build()
}

/// The topic on which the state messages of a sensor go out: the configured
/// topic followed by `/state`.
pub open spec fn spec_state_topic(topic: Seq<char>) -> Seq<char> {
    topic + "/state"@
}

/// The topic on which the state messages of a sensor go out.
pub fn state_topic(topic: &str) -> (text: String)
    ensures
        text@ == spec_state_topic(topic@),
{
    let mut text = String::from_str(topic);
    text.append("/state");
    text
}

/// A state message: the payload on the state topic, with the retain flag
/// set, so that a platform that subscribes late gets the last known state.
pub fn state_message(state_topic: &str, payload: String) -> (message: Message)
    ensures
        message@ == (MessageView { topic: state_topic@, payload: payload@, retain: true }),
{
    MessageBuilder::new().payload(payload).topic(String::from_str(state_topic)).retain(
        true,
    ).build()
}

} // verus!
