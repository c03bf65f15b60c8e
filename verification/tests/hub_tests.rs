use rpc_relay::errors::RelayError;
use rpc_relay::hub::{Hub, RecvOutcome};

fn msg(bytes: &[u8]) -> Vec<u8> {
    bytes.to_vec()
}

#[test]
fn subscribe_without_prior_activity_fails() {
    let hub = Hub::new(2);
    let id = String::from("e1");
    match hub.subscribe(&id) {
        Err(RelayError::EndpointNotPublishing) => {},
        _ => panic!("expected EndpointNotPublishing"),
    }
}

#[test]
fn first_publish_creates_the_entry() {
    let mut hub = Hub::new(2);
    let id = String::from("e1");
    hub.publish(&id, msg(b"seed"));
    assert!(hub.subscribe(&id).is_ok());
    let other = String::from("e2");
    match hub.subscribe(&other) {
        Err(RelayError::EndpointNotPublishing) => {},
        _ => panic!("expected EndpointNotPublishing for an untouched id"),
    }
}

#[test]
fn subscriber_sees_publishes_in_order() {
    let mut hub = Hub::new(2);
    let id = String::from("e1");
    hub.publish(&id, msg(b"seed"));
    let mut sub = hub.subscribe(&id).unwrap();
    hub.publish(&id, msg(b"10"));
    hub.publish(&id, msg(b"20"));
    match hub.recv(&mut sub) {
        RecvOutcome::Message(m) => assert_eq!(m, b"10".to_vec()),
        other => panic!("expected the first message, got {:?}", other),
    }
    match hub.recv(&mut sub) {
        RecvOutcome::Message(m) => assert_eq!(m, b"20".to_vec()),
        other => panic!("expected the second message, got {:?}", other),
    }
    match hub.recv(&mut sub) {
        RecvOutcome::Pending => {},
        other => panic!("expected Pending after draining, got {:?}", other),
    }
}

#[test]
fn subscriber_only_sees_messages_after_it_attached() {
    let mut hub = Hub::new(8);
    let id = String::from("e1");
    hub.publish(&id, msg(b"before"));
    let mut sub = hub.subscribe(&id).unwrap();
    match hub.recv(&mut sub) {
        RecvOutcome::Pending => {},
        other => panic!("expected Pending right after subscribing, got {:?}", other),
    }
    hub.publish(&id, msg(b"after"));
    match hub.recv(&mut sub) {
        RecvOutcome::Message(m) => assert_eq!(m, b"after".to_vec()),
        other => panic!("expected only the later message, got {:?}", other),
    }
}

#[test]
fn two_subscribers_receive_independently() {
    let mut hub = Hub::new(2);
    let id = String::from("e1");
    hub.publish(&id, msg(b"seed"));
    let mut a = hub.subscribe(&id).unwrap();
    let mut b = hub.subscribe(&id).unwrap();
    hub.publish(&id, msg(b"10"));
    hub.publish(&id, msg(b"20"));
    let mut seen_a: Vec<Vec<u8>> = Vec::new();
    while let RecvOutcome::Message(m) = hub.recv(&mut a) {
        seen_a.push(m);
    }
    // Closing subscriber A must not affect what B subsequently receives.
    drop(a);
    let mut seen_b: Vec<Vec<u8>> = Vec::new();
    while let RecvOutcome::Message(m) = hub.recv(&mut b) {
        seen_b.push(m);
    }
    assert_eq!(seen_a, vec![b"10".to_vec(), b"20".to_vec()]);
    assert_eq!(seen_a, seen_b);
}

#[test]
fn slow_subscriber_lags_and_resumes_at_oldest_retained() {
    let mut hub = Hub::new(2);
    let id = String::from("e1");
    hub.publish(&id, msg(b"seed"));
    let mut sub = hub.subscribe(&id).unwrap();
    hub.publish(&id, msg(b"a"));
    hub.publish(&id, msg(b"b"));
    hub.publish(&id, msg(b"c"));
    match hub.recv(&mut sub) {
        RecvOutcome::Lagged => {},
        other => panic!("expected Lagged after missing messages, got {:?}", other),
    }
    match hub.recv(&mut sub) {
        RecvOutcome::Message(m) => assert_eq!(m, b"b".to_vec()),
        other => panic!("expected the oldest retained message, got {:?}", other),
    }
    match hub.recv(&mut sub) {
        RecvOutcome::Message(m) => assert_eq!(m, b"c".to_vec()),
        other => panic!("expected the newest message, got {:?}", other),
    }
}

#[test]
fn publishes_on_one_endpoint_do_not_cross_another() {
    let mut hub = Hub::new(2);
    let one = String::from("e1");
    let two = String::from("e2");
    hub.publish(&one, msg(b"seed-one"));
    hub.publish(&two, msg(b"seed-two"));
    let mut sub = hub.subscribe(&one).unwrap();
    hub.publish(&two, msg(b"noise"));
    match hub.recv(&mut sub) {
        RecvOutcome::Pending => {},
        other => panic!("expected nothing on an unrelated endpoint, got {:?}", other),
    }
    hub.publish(&one, msg(b"signal"));
    match hub.recv(&mut sub) {
        RecvOutcome::Message(m) => assert_eq!(m, b"signal".to_vec()),
        other => panic!("expected the endpoint's own message, got {:?}", other),
    }
}
