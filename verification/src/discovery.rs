//! Home Assistant discovery: the topic under which a sensor is announced and
//! the descriptor that tells the platform how to read its state messages.

use vstd::prelude::*;
use crate::host::host_name;
use crate::json::{discovery_body, json_string, json_string_text, spec_discovery_body};

verus! {

/// Discovery prefix that Home Assistant listens on unless told otherwise.
pub const DEFAULT_DISCOVERY_PREFIX: &'static str = "homeassistant";

/// Kind of component a discovery topic announces.
#[derive(Clone, Copy, Debug, PartialEq, Eq, Structural)]
pub enum DiscoveryDevice {
    BinarySensor,
    Sensor,
    NoneType,
}

impl DiscoveryDevice {
    /// The topic segment that names the component kind.
    pub open spec fn spec_text(self) -> Seq<char> {
        match self {
            DiscoveryDevice::BinarySensor => "binary_sensor"@,
            DiscoveryDevice::Sensor => "sensor"@,
            DiscoveryDevice::NoneType => "none"@,
        }
    }

    /// The topic segment that names the component kind.
    pub fn as_str(&self) -> (text: &'static str)
        ensures
            text@ == self.spec_text(),
    {
        match self {
            DiscoveryDevice::BinarySensor => "binary_sensor",
            DiscoveryDevice::Sensor => "sensor",
            DiscoveryDevice::NoneType => "none",
        }
    }

    /// The topic segment that names the component kind, as an owned string.
    pub fn to_string(&self) -> (text: String)
        ensures
            text@ == self.spec_text(),
    {
        String::from_str(self.as_str())
    }
}

/// Optional node segment of a discovery topic.
#[derive(Debug)]
pub enum NodeID {
    Empty,
    Is(String),
}

impl Clone for NodeID {
    fn clone(&self) -> (copy: Self)
        ensures
            copy == *self,
    {
        match self {
            NodeID::Empty => NodeID::Empty,
            NodeID::Is(id) => NodeID::Is(id.clone()),
        }
    }
}

impl PartialEq for NodeID {
    fn eq(&self, other: &Self) -> (equal: bool) {
        match (self, other) {
            (NodeID::Empty, NodeID::Empty) => true,
            (NodeID::Is(a), NodeID::Is(b)) => *a == *b,
            _ => false,
        }
    }
}

impl vstd::std_specs::cmp::PartialEqSpecImpl for NodeID {
    open spec fn obeys_eq_spec() -> bool {
        true
    }

    open spec fn eq_spec(&self, other: &Self) -> bool {
        self@ == other@
    }
}

impl View for NodeID {
    type V = Option<Seq<char>>;

    open spec fn view(&self) -> Option<Seq<char>> {
        match self {
            NodeID::Empty => None,
            NodeID::Is(id) => Some(id@),
        }
    }
}

/// Mathematical content of a discovery topic, and of its builder.
pub struct DiscoveryTopicView {
    pub discovery_prefix: Seq<char>,
    pub comp: DiscoveryDevice,
    pub node_id: Option<Seq<char>>,
    pub object_id: Seq<char>,
}

impl DiscoveryTopicView {
    /// The topic path: prefix, component kind, the node segment where there
    /// is one, object id, and the closing `config`.
    pub open spec fn text(self) -> Seq<char> {
        match self.node_id {
            None => self.discovery_prefix + "/"@ + self.comp.spec_text() + "/"@ + self.object_id
                + "/config"@,
            Some(id) => self.discovery_prefix + "/"@ + self.comp.spec_text() + "/"@ + id + "/"@
                + self.object_id + "/config"@,
        }
    }
}

/// Destination of a discovery message.
#[derive(Debug)]
pub struct DiscoveryTopic {
    pub discovery_prefix: String,
    pub comp: DiscoveryDevice,
    pub node_id: NodeID,
    pub object_id: String,
}

impl View for DiscoveryTopic {
    type V = DiscoveryTopicView;

    open spec fn view(&self) -> DiscoveryTopicView {
        DiscoveryTopicView {
            discovery_prefix: self.discovery_prefix@,
            comp: self.comp,
            node_id: self.node_id@,
            object_id: self.object_id@,
        }
    }
}

impl Clone for DiscoveryTopic {
    fn clone(&self) -> (copy: Self)
        ensures
            copy == *self,
    {
        DiscoveryTopic {
            discovery_prefix: self.discovery_prefix.clone(),
            comp: self.comp,
            node_id: self.node_id.clone(),
            object_id: self.object_id.clone(),
        }
    }
}

impl PartialEq for DiscoveryTopic {
    fn eq(&self, other: &Self) -> (equal: bool) {
        self.discovery_prefix == other.discovery_prefix && self.comp == other.comp
            && self.node_id == other.node_id && self.object_id == other.object_id
    }
}

impl vstd::std_specs::cmp::PartialEqSpecImpl for DiscoveryTopic {
    open spec fn obeys_eq_spec() -> bool {
        true
    }

    open spec fn eq_spec(&self, other: &Self) -> bool {
        self@ == other@
    }
}

impl DiscoveryTopic {
    /// The topic path as it goes on the wire.
    pub fn to_string(&self) -> (text: String)
        ensures
            text@ == self@.text(),
    {
        let mut text = self.discovery_prefix.clone();
        text.append("/");
        text.append(self.comp.as_str());
        text.append("/");
        match &self.node_id {
            NodeID::Empty => {},
            NodeID::Is(id) => {
                text.append(id.as_str());
                text.append("/");
            },
        }
        text.append(self.object_id.as_str());
        text.append("/config");
        text
    }
}

/// Step-by-step construction of a `DiscoveryTopic`.
#[derive(Debug)]
pub struct DiscoveryTopicBuilder {
    pub discovery_prefix: String,
    pub comp: DiscoveryDevice,
    pub node_id: NodeID,
    pub object_id: String,
}

impl View for DiscoveryTopicBuilder {
    type V = DiscoveryTopicView;

    open spec fn view(&self) -> DiscoveryTopicView {
        DiscoveryTopicView {
            discovery_prefix: self.discovery_prefix@,
            comp: self.comp,
            node_id: self.node_id@,
            object_id: self.object_id@,
        }
    }
}

impl DiscoveryTopicBuilder {
    /// A builder for this machine: the default prefix, no component kind yet,
    /// no node segment, and the machine's host name as object id.
    ///
    /// The object id is whatever the system reports, and empty where the
    /// name cannot be had as Unicode text; `for_host` says how it is used.
    pub fn new() -> (builder: DiscoveryTopicBuilder)
        ensures
            builder@.discovery_prefix == DEFAULT_DISCOVERY_PREFIX@,
            builder@.comp == DiscoveryDevice::NoneType,
            builder@.node_id is None,
    {
        DiscoveryTopicBuilder::for_host(host_name())
    }

    /// A builder for the machine with the given host name; `None` stands for
    /// a name that could not be determined and gives an empty object id.
    pub fn for_host(host_name: Option<String>) -> (builder: DiscoveryTopicBuilder)
        ensures
            builder@ == (DiscoveryTopicView {
                discovery_prefix: DEFAULT_DISCOVERY_PREFIX@,
                comp: DiscoveryDevice::NoneType,
                node_id: None,
                object_id: match host_name {
                    Some(name) => name@,
                    None => Seq::empty(),
                },
            }),
    {
        let object_id = match host_name {
            Some(name) => name,
            None => String::new(),
        };
        DiscoveryTopicBuilder {
            discovery_prefix: String::from_str(DEFAULT_DISCOVERY_PREFIX),
            comp: DiscoveryDevice::NoneType,
            node_id: NodeID::Empty,
            object_id,
        }
    }

    /// The topic that was described.
    pub fn build(self) -> (topic: DiscoveryTopic)
        ensures
            topic@ == self@,
    {
        DiscoveryTopic {
            discovery_prefix: self.discovery_prefix,
            comp: self.comp,
            node_id: self.node_id,
            object_id: self.object_id,
        }
    }

    /// Sets the component kind.
    pub fn comp(self, comp: DiscoveryDevice) -> (builder: DiscoveryTopicBuilder)
        ensures
            builder@ == (DiscoveryTopicView { comp, ..self@ }),
    {
        let mut builder = self;
        builder.comp = comp;
        builder
    }

    /// Sets the discovery prefix.
    pub fn discovery_prefix(self, discovery_prefix: String) -> (builder: DiscoveryTopicBuilder)
        ensures
            builder@ == (DiscoveryTopicView { discovery_prefix: discovery_prefix@, ..self@ }),
    {
        let mut builder = self;
        builder.discovery_prefix = discovery_prefix;
        builder
    }
}

/// Unit in which the percentage is reported.
pub const PERCENT_UNIT: &'static str = "%";

/// Template by which the platform takes the percentage out of a state body.
pub const PERCENTAGE_TEMPLATE: &'static str = "{{ value_json.percentage }}";

/// Mathematical content of a discovery descriptor.
pub struct DiscoveryPayloadView {
    pub name: Seq<char>,
    pub device_class: Seq<char>,
    pub state_topic: Seq<char>,
    pub unit_of_measurement: Seq<char>,
    pub value_template: Seq<char>,
}

impl DiscoveryPayloadView {
    /// The descriptor as a JSON object: its five members in the order of
    /// declaration, each value encoded as a JSON string.
    pub open spec fn json(self) -> Seq<char> {
        spec_discovery_body(
            json_string_text(self.name),
            json_string_text(self.device_class),
            json_string_text(self.state_topic),
            json_string_text(self.unit_of_measurement),
            json_string_text(self.value_template),
        )
    }
}

/// Descriptor that tells the platform how to read the state messages.
#[derive(Debug)]
pub struct DiscoveryPayload {
    pub name: String,
    pub device_class: String,
    pub state_topic: String,
    pub unit_of_measurement: String,
    pub value_template: String,
}

impl View for DiscoveryPayload {
    type V = DiscoveryPayloadView;

    open spec fn view(&self) -> DiscoveryPayloadView {
        DiscoveryPayloadView {
            name: self.name@,
            device_class: self.device_class@,
            state_topic: self.state_topic@,
            unit_of_measurement: self.unit_of_measurement@,
            value_template: self.value_template@,
        }
    }
}

impl Clone for DiscoveryPayload {
    fn clone(&self) -> (copy: Self)
        ensures
            copy == *self,
    {
        DiscoveryPayload {
            name: self.name.clone(),
            device_class: self.device_class.clone(),
            state_topic: self.state_topic.clone(),
            unit_of_measurement: self.unit_of_measurement.clone(),
            value_template: self.value_template.clone(),
        }
    }
}

impl PartialEq for DiscoveryPayload {
    fn eq(&self, other: &Self) -> (equal: bool) {
        self.name == other.name && self.device_class == other.device_class && self.state_topic
            == other.state_topic && self.unit_of_measurement == other.unit_of_measurement
            && self.value_template == other.value_template
    }
}

impl vstd::std_specs::cmp::PartialEqSpecImpl for DiscoveryPayload {
    open spec fn obeys_eq_spec() -> bool {
        true
    }

    open spec fn eq_spec(&self, other: &Self) -> bool {
        self@ == other@
    }
}

impl DiscoveryPayload {
    pub fn new(
        name: String,
        device_class: String,
        state_topic: String,
        unit_of_measurement: String,
        value_template: String,
    ) -> (payload: DiscoveryPayload)
        ensures
            payload@ == (DiscoveryPayloadView {
                name: name@,
                device_class: device_class@,
                state_topic: state_topic@,
                unit_of_measurement: unit_of_measurement@,
                value_template: value_template@,
            }),
    {
        DiscoveryPayload { name, device_class, state_topic, unit_of_measurement, value_template }
    }

    /// The descriptor as the body of a discovery message.
    pub fn to_string(&self) -> (text: String)
        ensures
            text@ == self@.json(),
    {
        let name = json_string(self.name.as_str());
        let device_class = json_string(self.device_class.as_str());
        let state_topic = json_string(self.state_topic.as_str());
        let unit_of_measurement = json_string(self.unit_of_measurement.as_str());
        let value_template = json_string(self.value_template.as_str());
        discovery_body(
            name.as_str(),
            device_class.as_str(),
            state_topic.as_str(),
            unit_of_measurement.as_str(),
            value_template.as_str(),
        )
    }
}

/// Mathematical content of a descriptor under construction.
pub struct DiscoveryPayloadBuilderView {
    pub name: Seq<char>,
    pub device_class: Seq<char>,
    pub state_topic: Seq<char>,
}

/// Step-by-step construction of the descriptor of a percentage sensor.
#[derive(Debug)]
pub struct DiscoveryPayloadBuilder {
    pub name: String,
    pub device_class: String,
    pub state_topic: String,
}

impl View for DiscoveryPayloadBuilder {
    type V = DiscoveryPayloadBuilderView;

    open spec fn view(&self) -> DiscoveryPayloadBuilderView {
        DiscoveryPayloadBuilderView {
            name: self.name@,
            device_class: self.device_class@,
            state_topic: self.state_topic@,
        }
    }
}

impl DiscoveryPayloadBuilder {
    /// A builder with every member empty.
    pub fn new() -> (builder: DiscoveryPayloadBuilder)
        ensures
            builder@ == (DiscoveryPayloadBuilderView {
                name: Seq::empty(),
                device_class: Seq::empty(),
                state_topic: Seq::empty(),
            }),
    {
        DiscoveryPayloadBuilder {
            name: String::new(),
            device_class: String::new(),
            state_topic: String::new(),
        }
    }

    /// Sets the name under which the sensor is shown.
    pub fn name(self, name: String) -> (builder: DiscoveryPayloadBuilder)
        ensures
            builder@ == (DiscoveryPayloadBuilderView { name: name@, ..self@ }),
    {
        let mut builder = self;
        builder.name = name;
        builder
    }

    /// Sets the device class.
    pub fn device_class(self, device_class: String) -> (builder: DiscoveryPayloadBuilder)
        ensures
            builder@ == (DiscoveryPayloadBuilderView { device_class: device_class@, ..self@ }),
    {
        let mut builder = self;
        builder.device_class = device_class;
        builder
    }

    /// Sets the topic on which the state messages arrive.
    pub fn state_topic(self, state_topic: String) -> (builder: DiscoveryPayloadBuilder)
        ensures
            builder@ == (DiscoveryPayloadBuilderView { state_topic: state_topic@, ..self@ }),
    {
        let mut builder = self;
        builder.state_topic = state_topic;
        builder
    }

    /// The descriptor that was described, reporting in percent and reading
    /// the `percentage` member of each state body.
    pub fn build(self) -> (payload: DiscoveryPayload)
        ensures
            payload@ == (DiscoveryPayloadView {
                name: self@.name,
                device_class: self@.device_class,
                state_topic: self@.state_topic,
                unit_of_measurement: PERCENT_UNIT@,
                value_template: PERCENTAGE_TEMPLATE@,
            }),
    {
        DiscoveryPayload::new(
            self.name,
            self.device_class,
            self.state_topic,
            String::from_str(PERCENT_UNIT),
            String::from_str(PERCENTAGE_TEMPLATE),
        )
    }
}

/// Mathematical content of a discovery announcement.
pub struct DiscoveryView {
    pub topic: DiscoveryTopicView,
    pub payload: DiscoveryPayloadView,
}

/// A discovery announcement: where it goes and what it says.
#[derive(Debug)]
pub struct Discovery {
    pub topic: DiscoveryTopic,
    pub payload: DiscoveryPayload,
}

impl View for Discovery {
    type V = DiscoveryView;

    open spec fn view(&self) -> DiscoveryView {
        DiscoveryView { topic: self.topic@, payload: self.payload@ }
    }
}

} // verus!
