use battery_daemon::agent::{Agent, SAMPLE_INTERVAL_SECS};
use battery_daemon::charge::{ChargeInfo, ChargeState};
use battery_daemon::discovery::{DiscoveryDevice, DiscoveryTopic, DiscoveryTopicBuilder};
use battery_daemon::delivery::{publish_request, QoS};
use battery_daemon::message::Message;

fn reading(percentage: f32, state: ChargeState) -> ChargeInfo {
    ChargeInfo::new(percentage.to_bits(), state)
}

fn sensor_topic(host: &str) -> DiscoveryTopic {
    DiscoveryTopicBuilder::for_host(Some(String::from(host))).comp(DiscoveryDevice::Sensor).build()
}

fn announced_agent() -> Agent {
    let mut agent = Agent::new("battery-daemon/status/battery");
    assert!(agent.announce(sensor_topic("myhost")).is_some());
    agent
}

fn render(info: ChargeInfo) -> Option<String> {
    serde_json::to_string(&f32::from_bits(info.percentage_bits)).ok()
}

fn enqueue(agent: &mut Agent, sample: Option<ChargeInfo>, queue: &mut Vec<Message>) -> bool {
    match agent.tick(sample) {
        Some(info) => {
            let number = render(info);
            queue.push(agent.state_message(info, number.as_deref()));
            true
        }
        None => false,
    }
}

#[test]
fn new_agent_has_announced_nothing_and_knows_nothing() {
    let agent = Agent::new("battery-daemon/status/battery");
    assert_eq!(agent.state_topic(), "battery-daemon/status/battery/state");
    assert!(!agent.announced());
    assert_eq!(agent.last(), ChargeInfo::unknown());
}

#[test]
fn announcement_is_the_retained_discovery_message() {
    let mut agent = Agent::new("battery-daemon/status/battery");
    let message = agent.announce(sensor_topic("myhost")).unwrap();
    assert_eq!(message.topic, "homeassistant/sensor/myhost/config");
    assert_eq!(
        message.payload,
        "{\"name\":\"myhost\",\"device_class\":\"sensor\",\
         \"state_topic\":\"battery-daemon/status/battery/state\",\
         \"unit_of_measurement\":\"%\",\"value_template\":\"{{ value_json.percentage }}\"}"
    );
    assert!(message.retain);
    assert!(agent.announced());
    assert_eq!(agent.last(), ChargeInfo::unknown());
}

#[test]
fn announcement_is_made_once() {
    let mut agent = Agent::new("t");
    assert!(agent.announce(sensor_topic("myhost")).is_some());
    assert_eq!(agent.announce(sensor_topic("myhost")), None);
    assert_eq!(agent.announce(sensor_topic("other")), None);
    assert!(agent.announced());
}

#[test]
fn no_reading_goes_out_before_the_announcement() {
    let mut agent = Agent::new("t");
    assert_eq!(agent.tick(Some(reading(75.0, ChargeState::Discharging))), None);
    assert_eq!(agent.last(), ChargeInfo::unknown());
    assert!(agent.announce(sensor_topic("myhost")).is_some());
    assert_eq!(
        agent.tick(Some(reading(75.0, ChargeState::Discharging))),
        Some(reading(75.0, ChargeState::Discharging))
    );
}

#[test]
fn first_reading_is_published_and_remembered() {
    let mut agent = announced_agent();
    let a = reading(75.0, ChargeState::Discharging);
    assert_eq!(agent.tick(Some(a)), Some(a));
    assert_eq!(agent.last(), a);
}

#[test]
fn same_reading_twice_is_published_once() {
    let mut agent = announced_agent();
    let a = reading(75.0, ChargeState::Discharging);
    assert_eq!(agent.tick(Some(a)), Some(a));
    assert_eq!(agent.tick(Some(a)), None);
    assert_eq!(agent.tick(Some(a)), None);
    assert_eq!(agent.last(), a);
}

#[test]
fn first_reading_equal_to_unknown_is_not_published() {
    let mut agent = announced_agent();
    assert_eq!(agent.tick(Some(reading(0.0, ChargeState::Unknown))), None);
    assert_eq!(agent.tick(None), None);
    assert_eq!(agent.last(), ChargeInfo::unknown());
}

#[test]
fn failed_read_is_published_as_unknown() {
    let mut agent = announced_agent();
    let a = reading(75.0, ChargeState::Discharging);
    assert_eq!(agent.tick(Some(a)), Some(a));
    assert_eq!(agent.tick(None), Some(reading(0.0, ChargeState::Unknown)));
    assert_eq!(agent.last(), ChargeInfo::unknown());
    assert_eq!(agent.tick(None), None);
}

#[test]
fn failed_read_gives_the_state_message_of_unknown() {
    let mut agent = announced_agent();
    let mut queue = Vec::new();
    assert!(enqueue(&mut agent, Some(reading(75.0, ChargeState::Discharging)), &mut queue));
    assert!(enqueue(&mut agent, None, &mut queue));
    assert_eq!(queue.len(), 2);
    assert_eq!(queue[1].topic, "battery-daemon/status/battery/state");
    assert_eq!(queue[1].payload, "{\"percentage\":0.0,\"state\":\"Unknown\"}");
    assert!(queue[1].retain);
}

#[test]
fn reading_that_flaps_back_is_a_change() {
    let mut agent = announced_agent();
    let a = reading(75.0, ChargeState::Discharging);
    let b = reading(74.0, ChargeState::Discharging);
    assert_eq!(agent.tick(Some(a)), Some(a));
    assert_eq!(agent.tick(Some(b)), Some(b));
    assert_eq!(agent.tick(Some(a)), Some(a));
    assert_eq!(agent.tick(Some(a)), None);
}

#[test]
fn state_message_of_a_reading() {
    let agent = Agent::new("battery-daemon/status/battery");
    let message = agent.state_message(reading(75.0, ChargeState::Discharging), Some("75.0"));
    assert_eq!(
        message,
        Message {
            topic: String::from("battery-daemon/status/battery/state"),
            payload: String::from("{\"percentage\":75.0,\"state\":\"Discharging\"}"),
            retain: true,
        }
    );
}

#[test]
fn state_message_without_a_number_carries_the_fallback() {
    let agent = Agent::new("p");
    let message = agent.state_message(reading(75.0, ChargeState::Discharging), None);
    assert_eq!(
        message,
        Message {
            topic: String::from("p/state"),
            payload: String::from("parsing error"),
            retain: true,
        }
    );
}

#[test]
fn five_samples_give_three_messages() {
    let mut agent = announced_agent();
    let mut queue = Vec::new();
    let samples = [
        reading(75.0, ChargeState::Discharging),
        reading(75.0, ChargeState::Discharging),
        reading(74.0, ChargeState::Discharging),
        reading(74.0, ChargeState::Discharging),
        reading(74.0, ChargeState::Charging),
    ];
    let mut enqueued = Vec::new();
    for (tick, sample) in samples.iter().enumerate() {
        if enqueue(&mut agent, Some(*sample), &mut queue) {
            enqueued.push(tick + 1);
        }
    }
    assert_eq!(enqueued, vec![1, 3, 5]);
    assert_eq!(queue.len(), 3);
    assert_eq!(queue[0].payload, "{\"percentage\":75.0,\"state\":\"Discharging\"}");
    assert_eq!(queue[1].payload, "{\"percentage\":74.0,\"state\":\"Discharging\"}");
    assert_eq!(queue[2].payload, "{\"percentage\":74.0,\"state\":\"Charging\"}");
    for message in &queue {
        assert_eq!(message.topic, "battery-daemon/status/battery/state");
        assert!(message.retain);
    }
}

#[test]
fn discovery_comes_once_and_before_the_state_messages() {
    let mut agent = Agent::new("battery-daemon/status/battery");
    let mut sent = Vec::new();
    let a = reading(75.0, ChargeState::Discharging);
    let b = reading(74.0, ChargeState::Discharging);
    if agent.tick(Some(a)).is_some() {
        sent.push("state");
    }
    if agent.announce(sensor_topic("myhost")).is_some() {
        sent.push("discovery");
    }
    for sample in [Some(a), Some(a), None, Some(b)] {
        if agent.tick(sample).is_some() {
            sent.push("state");
        }
        if agent.announce(sensor_topic("myhost")).is_some() {
            sent.push("discovery");
        }
    }
    assert_eq!(sent, vec!["discovery", "state", "state", "state"]);
}

#[test]
fn failed_publish_does_not_stop_later_ticks() {
    let mut agent = announced_agent();
    let mut attempts = Vec::new();
    let mut failures = 0;
    let samples = [
        reading(75.0, ChargeState::Discharging),
        reading(74.0, ChargeState::Discharging),
        reading(74.0, ChargeState::Discharging),
        reading(73.0, ChargeState::Discharging),
    ];
    for sample in samples {
        let mut queue = Vec::new();
        if enqueue(&mut agent, Some(sample), &mut queue) {
            let request = publish_request(queue.remove(0));
            assert_eq!(request.qos, QoS::AtLeastOnce);
            assert!(request.retain);
            let published: Result<(), &str> = Err("connection refused");
            if published.is_err() {
                failures += 1;
            }
            attempts.push(request.payload);
        }
    }
    assert_eq!(failures, 3);
    assert_eq!(
        attempts,
        vec![
            String::from("{\"percentage\":75.0,\"state\":\"Discharging\"}"),
            String::from("{\"percentage\":74.0,\"state\":\"Discharging\"}"),
            String::from("{\"percentage\":73.0,\"state\":\"Discharging\"}"),
        ]
    );
    assert_eq!(agent.last(), reading(73.0, ChargeState::Discharging));
}

#[test]
fn sampling_pace() {
    assert_eq!(SAMPLE_INTERVAL_SECS, 60);
}
