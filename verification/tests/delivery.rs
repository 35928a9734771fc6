use battery_daemon::delivery::{
    delivery_step, publish_request, DeliveryAction, DeliveryEvent, Publish, QoS, DELIVERY_INTERVAL_SECS,
};
use battery_daemon::message::{Message, MessageBuilder};

fn message(topic: &str, payload: &str, retain: bool) -> Message {
    Message { topic: String::from(topic), payload: String::from(payload), retain }
}

#[test]
fn publish_request_asks_for_delivery_at_least_once() {
    let request = publish_request(message("t", "p", true));
    assert_eq!(request.topic, "t");
    assert_eq!(request.payload, "p");
    assert!(request.retain);
    assert_eq!(request.qos, QoS::AtLeastOnce);
}

#[test]
fn publish_request_keeps_a_cleared_retain_flag() {
    let request = publish_request(MessageBuilder::new().topic(String::from("t")).build());
    assert_eq!(
        request,
        Publish {
            topic: String::from("t"),
            qos: QoS::AtLeastOnce,
            retain: false,
            payload: String::new(),
        }
    );
}

#[test]
fn publish_calls_compare_field_by_field() {
    let request = publish_request(message("t", "p", true));
    assert_eq!(request, request.clone());
    let mut other = request.clone();
    other.qos = QoS::ExactlyOnce;
    assert_ne!(request, other);
    let mut other = request.clone();
    other.topic = String::from("u");
    assert_ne!(request, other);
    let mut other = request.clone();
    other.payload = String::from("q");
    assert_ne!(request, other);
    let mut other = request.clone();
    other.retain = false;
    assert_ne!(request, other);
}

#[test]
fn dequeued_message_is_published() {
    let action = delivery_step(DeliveryEvent::Dequeued(Some(message("t/state", "body", true))));
    assert_eq!(
        action,
        DeliveryAction::Publish(Publish {
            topic: String::from("t/state"),
            qos: QoS::AtLeastOnce,
            retain: true,
            payload: String::from("body"),
        })
    );
}

#[test]
fn empty_look_at_the_queue_is_followed_by_the_rest() {
    assert_eq!(delivery_step(DeliveryEvent::Dequeued(None)), DeliveryAction::Rest(60));
}

#[test]
fn publish_is_followed_by_the_rest_however_it_went() {
    assert_eq!(delivery_step(DeliveryEvent::Published(true)), DeliveryAction::Rest(60));
    assert_eq!(delivery_step(DeliveryEvent::Published(false)), DeliveryAction::Rest(60));
    assert_eq!(DELIVERY_INTERVAL_SECS, 60);
}

#[test]
fn delivery_goes_on_after_failed_publishes() {
    let mut queue = vec![message("t", "1", true), message("t", "2", true), message("t", "3", true)];
    let mut attempts = Vec::new();
    let mut rests = 0;
    for _ in 0..5 {
        let next = if queue.is_empty() { None } else { Some(queue.remove(0)) };
        let mut action = delivery_step(DeliveryEvent::Dequeued(next));
        loop {
            match action {
                DeliveryAction::Publish(request) => {
                    attempts.push(request.payload);
                    action = delivery_step(DeliveryEvent::Published(false));
                }
                DeliveryAction::Rest(seconds) => {
                    assert_eq!(seconds, 60);
                    rests += 1;
                    break;
                }
            }
        }
    }
    assert_eq!(attempts, vec![String::from("1"), String::from("2"), String::from("3")]);
    assert_eq!(rests, 5);
}
