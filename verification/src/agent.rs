//! The life of the agent: one announcement, then readings as they change.
//!
//! The agent decides; the program around it samples the sensor, keeps time
//! and talks to the broker. Each call below takes what happened and says
//! what is to be sent.

use vstd::prelude::*;
use crate::charge::{or_unknown, should_publish, spec_or_unknown, ChargeInfo};
use crate::discovery::{
    DiscoveryDevice, DiscoveryPayloadBuilder, DiscoveryPayloadView, DiscoveryTopic,
    DiscoveryTopicView, PERCENTAGE_TEMPLATE, PERCENT_UNIT,
};
use crate::json::{spec_state_payload, state_payload};
use crate::message::{
    home_assistant_discovery, spec_state_topic, state_message, state_topic, Message, MessageView,
};

verus! {

/// Seconds between two samples of the sensor.
pub const SAMPLE_INTERVAL_SECS: u64 = 60;

/// Mathematical content of an agent.
pub struct AgentView {
    /// Topic of the state messages.
    pub state_topic: Seq<char>,
    /// Whether the discovery message has been handed out.
    pub announced: bool,
    /// The reading published last; "nothing known" before the first.
    pub last: ChargeInfo,
}

/// What can happen to an agent.
pub enum Event {
    /// The program asks for the discovery message for the given topic.
    Announce(DiscoveryTopicView),
    /// The sensor was sampled; `None` where it could not be read.
    Sample(Option<ChargeInfo>),
}

/// What an agent asks to be sent in answer to an event.
pub enum Output {
    Nothing,
    /// The discovery message, to be published at once.
    Discovery(MessageView),
    /// A reading, to go out as a state message.
    Reading(ChargeInfo),
}

/// The descriptor of the battery sensor of the machine `object_id`.
pub open spec fn spec_sensor_descriptor(
    object_id: Seq<char>,
    state_topic: Seq<char>,
) -> DiscoveryPayloadView {
    DiscoveryPayloadView {
        name: object_id,
        device_class: DiscoveryDevice::Sensor.spec_text(),
        state_topic,
        unit_of_measurement: PERCENT_UNIT@,
        value_template: PERCENTAGE_TEMPLATE@,
    }
}

/// The discovery message that announces the sensor under `topic`.
pub open spec fn spec_announcement(topic: DiscoveryTopicView, state_topic: Seq<char>) -> MessageView {
    MessageView {
        topic: topic.text(),
        payload: spec_sensor_descriptor(topic.object_id, state_topic).json(),
        retain: true,
    }
}

impl AgentView {
    /// The agent at the start of a run.
    pub open spec fn initial(topic: Seq<char>) -> AgentView {
        AgentView {
            state_topic: spec_state_topic(topic),
            announced: false,
            last: ChargeInfo::spec_unknown(),
        }
    }

    /// One step: the state after the event, and what is to be sent.
    ///
    /// The first request for the announcement is granted and every later one
    /// is not. A sample counts only once the announcement is out; it is then
    /// published, and remembered, exactly when it differs from the reading
    /// published last.
    pub open spec fn step(self, event: Event) -> (AgentView, Output) {
        match event {
            Event::Announce(topic) => {
                if self.announced {
                    (self, Output::Nothing)
                } else {
                    (
                        AgentView { announced: true, ..self },
                        Output::Discovery(spec_announcement(topic, self.state_topic)),
                    )
                }
            },
            Event::Sample(sample) => {
                let candidate = spec_or_unknown(sample);
                if self.announced && self.last != candidate {
                    (AgentView { last: candidate, ..self }, Output::Reading(candidate))
                } else {
                    (self, Output::Nothing)
                }
            },
        }
    }

    /// What is sent, event by event, over a whole sequence of events.
    pub open spec fn run(self, events: Seq<Event>) -> Seq<Output>
        decreases events.len(),
    {
        if events.len() == 0 {
            Seq::empty()
        } else {
            let (next, output) = self.step(events[0]);
            seq![output] + next.run(events.drop_first())
        }
    }
}

/// The deciding half of the agent: what was announced, and what was
/// published last.
#[derive(Debug)]
pub struct Agent {
    state_topic: String,
    announced: bool,
    last: ChargeInfo,
}

impl View for Agent {
    type V = AgentView;

    closed spec fn view(&self) -> AgentView {
        AgentView { state_topic: self.state_topic@, announced: self.announced, last: self.last }
    }
}

/// The output that an optional message from `Agent::announce` stands for.
pub open spec fn spec_announce_output(message: Option<Message>) -> Output {
    match message {
        Some(m) => Output::Discovery(m@),
        None => Output::Nothing,
    }
}

/// The output that an optional reading from `Agent::tick` stands for.
pub open spec fn spec_tick_output(due: Option<ChargeInfo>) -> Output {
    match due {
        Some(info) => Output::Reading(info),
        None => Output::Nothing,
    }
}

impl Agent {
    /// An agent at the start of a run, publishing state under `topic`.
    pub fn new(topic: &str) -> (agent: Agent)
        ensures
            agent@ == AgentView::initial(topic@),
    {
        Agent { state_topic: state_topic(topic), announced: false, last: ChargeInfo::unknown() }
    }

    /// Topic of the state messages.
    pub fn state_topic(&self) -> (topic: &str)
        ensures
            topic@ == self@.state_topic,
    {
        self.state_topic.as_str()
    }

    /// Whether the discovery message has been handed out.
    pub fn announced(&self) -> (announced: bool)
        ensures
            announced == self@.announced,
    {
        self.announced
    }

    /// The reading published last.
    pub fn last(&self) -> (last: ChargeInfo)
        ensures
            last == self@.last,
    {
        self.last
    }

    /// Asks for the discovery message that announces the sensor under
    /// `topic`. The first call of a run returns it; every later call
    /// returns `None`.
    pub fn announce(&mut self, topic: DiscoveryTopic) -> (message: Option<Message>)
        ensures
            message is Some <==> !old(self)@.announced,
            (final(self)@, spec_announce_output(message)) == old(self)@.step(
                Event::Announce(topic@),
            ),
    {
        if self.announced {
            return None;
        }
        let payload = DiscoveryPayloadBuilder::new().name(topic.object_id.clone()).device_class(
            DiscoveryDevice::Sensor.to_string(),
        ).state_topic(self.state_topic.clone()).build();
        let message = home_assistant_discovery(topic, payload);
        self.announced = true;
        Some(message)
    }

    /// Takes one sample of the sensor, `None` where it could not be read,
    /// and returns the reading to publish, if there is one.
    pub fn tick(&mut self, sample: Option<ChargeInfo>) -> (due: Option<ChargeInfo>)
        ensures
            due is Some <==> old(self)@.announced && old(self)@.last != spec_or_unknown(sample),
            due is Some ==> due == Some(spec_or_unknown(sample)),
            (final(self)@, spec_tick_output(due)) == old(self)@.step(Event::Sample(sample)),
    {
        let candidate = or_unknown(sample);
        if self.announced && should_publish(self.last, candidate) {
            self.last = candidate;
            Some(candidate)
        } else {
            None
        }
    }

    /// The state message for a reading that is due. `number` is its
    /// percentage rendered as a JSON number, or `None` where rendering it
    /// failed.
    pub fn state_message(&self, info: ChargeInfo, number: Option<&str>) -> (message: Message)
        ensures
            message@ == (MessageView {
                topic: self@.state_topic,
                payload: spec_state_payload(
                    match number {
                        Some(text) => Some(text@),
                        None => None,
                    },
                    info.state,
                ),
                retain: true,
            }),
    {
        state_message(self.state_topic.as_str(), state_payload(number, info.state))
    }
}

/// A run sends one output for each event.
pub proof fn lemma_run_len(state: AgentView, events: Seq<Event>)
    ensures
        state.run(events).len() == events.len(),
    decreases events.len(),
{
    if events.len() > 0 {
        lemma_run_len(state.step(events[0]).0, events.drop_first());
    }
}

/// The outputs of a run, one by one: the first is that of the first event,
/// and the others are those of the run that goes on from there.
pub proof fn lemma_run_index(state: AgentView, events: Seq<Event>, i: int)
    requires
        0 <= i < events.len(),
    ensures
        state.run(events).len() == events.len(),
        i == 0 ==> state.run(events)[i] == state.step(events[0]).1,
        i > 0 ==> state.run(events)[i] == state.step(events[0]).0.run(events.drop_first())[i - 1],
{
    lemma_run_len(state, events);
    lemma_run_len(state.step(events[0]).0, events.drop_first());
}

/// Feeding the same sample twice in a row never publishes twice: whatever
/// the first did, the second sends nothing and leaves the agent as it was.
pub proof fn lemma_repeated_sample_is_silent(state: AgentView, sample: Option<ChargeInfo>)
    ensures
        ({
            let after = state.step(Event::Sample(sample)).0;
            after.step(Event::Sample(sample)) == (after, Output::Nothing)
        }),
{
}

/// A sample that could not be taken is published, where anything is
/// published for it, as zero percent in state unknown.
pub proof fn lemma_failed_sample_reports_unknown(state: AgentView)
    ensures
        state.step(Event::Sample(None)).1 == (if state.announced && state.last
            != ChargeInfo::spec_unknown() {
            Output::Reading(ChargeInfo::spec_unknown())
        } else {
            Output::Nothing
        }),
{
}

/// Once the announcement is out, no run sends another.
pub proof fn lemma_announced_stays_silent(state: AgentView, events: Seq<Event>)
    requires
        state.announced,
    ensures
        forall|i: int| 0 <= i < events.len() ==> !(#[trigger] state.run(events)[i] is Discovery),
    decreases events.len(),
{
    if events.len() > 0 {
        let next = state.step(events[0]).0;
        let rest = events.drop_first();
        lemma_announced_stays_silent(next, rest);
        assert forall|i: int| 0 <= i < events.len() implies !(#[trigger] state.run(events)[i]
            is Discovery) by {
            lemma_run_index(state, events, i);
        }
    }
}

/// In every run that starts before the announcement, the discovery message
/// is sent at most once, it is sent in answer to the first request for it,
/// and no reading is sent before it.
pub proof fn lemma_discovery_once_and_first(state: AgentView, events: Seq<Event>)
    requires
        !state.announced,
    ensures
        forall|i: int, j: int|
            0 <= i < j < events.len() && #[trigger] state.run(events)[i] is Discovery ==> !(
            #[trigger] state.run(events)[j] is Discovery),
        forall|i: int|
            0 <= i < events.len() && #[trigger] state.run(events)[i] is Reading ==> exists|j: int|
                0 <= j < i && #[trigger] state.run(events)[j] is Discovery,
        forall|k: int|
            0 <= k < events.len() && #[trigger] events[k] is Announce ==> exists|j: int|
                0 <= j <= k && #[trigger] state.run(events)[j] is Discovery,
    decreases events.len(),
{
    if events.len() > 0 {
        let outputs = state.run(events);
        let next = state.step(events[0]).0;
        let rest = events.drop_first();
        lemma_run_index(state, events, 0);
        if events[0] is Announce {
            lemma_announced_stays_silent(next, rest);
            assert forall|j: int| 0 < j < events.len() implies !(#[trigger] outputs[j]
                is Discovery) by {
                lemma_run_index(state, events, j);
            }
            assert(outputs[0] is Discovery);
        } else {
            lemma_discovery_once_and_first(next, rest);
            assert(!(outputs[0] is Discovery) && !(outputs[0] is Reading));
            assert forall|i: int, j: int|
                0 <= i < j < events.len() && #[trigger] outputs[i] is Discovery implies !(
            #[trigger] outputs[j] is Discovery) by {
                lemma_run_index(state, events, i);
                lemma_run_index(state, events, j);
            }
            assert forall|i: int|
                0 <= i < events.len() && #[trigger] outputs[i] is Reading implies exists|j: int|
                0 <= j < i && #[trigger] outputs[j] is Discovery by {
                lemma_run_index(state, events, i);
                let before = choose|j: int|
                    0 <= j < i - 1 && #[trigger] next.run(rest)[j] is Discovery;
                lemma_run_index(state, events, before + 1);
                assert(outputs[before + 1] is Discovery);
            }
            assert forall|k: int|
                0 <= k < events.len() && #[trigger] events[k] is Announce implies exists|j: int|
                0 <= j <= k && #[trigger] outputs[j] is Discovery by {
                assert(rest[k - 1] is Announce);
                let before = choose|j: int|
                    0 <= j <= k - 1 && #[trigger] next.run(rest)[j] is Discovery;
                lemma_run_index(state, events, before + 1);
                assert(outputs[before + 1] is Discovery);
            }
        }
    }
}

/// The first reading that a run publishes differs from the reading that was
/// published last before the run.
pub proof fn lemma_first_reading_differs(state: AgentView, events: Seq<Event>, j: int)
    requires
        0 <= j < events.len(),
        state.run(events)[j] is Reading,
        forall|k: int| 0 <= k < j ==> !(#[trigger] state.run(events)[k] is Reading),
    ensures
        state.run(events)[j]->Reading_0 != state.last,
    decreases events.len(),
{
    let outputs = state.run(events);
    let next = state.step(events[0]).0;
    let rest = events.drop_first();
    lemma_run_index(state, events, 0);
    if j > 0 {
        assert(!(outputs[0] is Reading));
        assert(next.last == state.last);
        lemma_run_index(state, events, j);
        assert forall|k: int| 0 <= k < j - 1 implies !(#[trigger] next.run(rest)[k]
            is Reading) by {
            lemma_run_index(state, events, k + 1);
            assert(!(outputs[k + 1] is Reading));
        }
        lemma_first_reading_differs(next, rest, j - 1);
    }
}

/// No two readings that a run publishes one after the other are equal.
pub proof fn lemma_consecutive_readings_differ(
    state: AgentView,
    events: Seq<Event>,
    i: int,
    j: int,
)
    requires
        0 <= i < j < events.len(),
        state.run(events)[i] is Reading,
        state.run(events)[j] is Reading,
        forall|k: int| i < k < j ==> !(#[trigger] state.run(events)[k] is Reading),
    ensures
        state.run(events)[i]->Reading_0 != state.run(events)[j]->Reading_0,
    decreases events.len(),
{
    let outputs = state.run(events);
    let next = state.step(events[0]).0;
    let rest = events.drop_first();
    lemma_run_index(state, events, i);
    lemma_run_index(state, events, j);
    if i == 0 {
        assert(next.last == outputs[0]->Reading_0);
        assert forall|k: int| 0 <= k < j - 1 implies !(#[trigger] next.run(rest)[k]
            is Reading) by {
            lemma_run_index(state, events, k + 1);
            assert(!(outputs[k + 1] is Reading));
        }
        lemma_first_reading_differs(next, rest, j - 1);
    } else {
        assert forall|k: int| i - 1 < k < j - 1 implies !(#[trigger] next.run(rest)[k]
            is Reading) by {
            lemma_run_index(state, events, k + 1);
            assert(!(outputs[k + 1] is Reading));
        }
        lemma_consecutive_readings_differ(next, rest, i - 1, j - 1);
    }
}

} // verus!
