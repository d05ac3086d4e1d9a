use bus_relay::event::{event_name_string, forward_decoded, Action, Failure, Received};
use bus_relay::relay::Relay;
use serde_json::{Number, Value};

fn running() -> Relay {
    let mut relay = Relay::with_default_endpoint();
    relay.setup_done(true);
    relay.setup_done(true);
    relay.setup_done(true);
    relay.setup_done(true);
    assert!(relay.is_running());
    relay
}

fn text(s: &str) -> Received {
    Received::Text(s.to_string())
}

fn broadcast_of(payload: Value) -> Action {
    Action::Broadcast { event: "bus-message".to_string(), payload }
}

#[test]
fn tick_message_is_broadcast_as_bus_message() {
    let relay = running();
    let mut object = serde_json::Map::new();
    object.insert("type".to_string(), Value::String("tick".to_string()));
    object.insert("value".to_string(), Value::Number(Number::from(42)));
    let action = relay.on_received(text("{\"type\":\"tick\",\"value\":42}"));
    assert_eq!(action, broadcast_of(Value::Object(object)));
}

#[test]
fn text_that_is_not_json_is_discarded_and_the_next_message_is_served() {
    let relay = running();
    assert_eq!(relay.on_received(text("not-json")), Action::Discard);
    assert!(relay.is_running());
    assert_eq!(relay.on_received(text("true")), broadcast_of(Value::Bool(true)));
}

#[test]
fn hundred_messages_three_malformed_give_ninety_seven_broadcasts_in_order() {
    let relay = running();
    let mut seen: Vec<Value> = Vec::new();
    let mut expected: Vec<Value> = Vec::new();
    for i in 0..100u64 {
        let malformed = i == 7 || i == 50 || i == 99;
        let message = if malformed { format!("{{\"seq\":{}", i) } else { format!("{{\"seq\":{}}}", i) };
        if !malformed {
            let mut object = serde_json::Map::new();
            object.insert("seq".to_string(), Value::Number(Number::from(i)));
            expected.push(Value::Object(object));
        }
        match relay.on_received(Received::Text(message)) {
            Action::Broadcast { event, payload } => {
                assert_eq!(event, "bus-message");
                seen.push(payload);
            }
            Action::Discard => assert!(malformed),
            Action::Report(failure) => panic!("unexpected report: {:?}", failure),
        }
    }
    assert_eq!(seen.len(), 97);
    assert_eq!(seen, expected);
    assert!(relay.is_running());
}

#[test]
fn transport_error_is_reported_and_the_next_message_is_broadcast() {
    let relay = running();
    let first = relay.on_received(Received::TransportError("Resource temporarily unavailable".to_string()));
    assert_eq!(
        first,
        Action::Report(Failure::Receive("Resource temporarily unavailable".to_string()))
    );
    assert!(relay.is_running());
    let second = relay.on_received(text("[1,2]"));
    assert_eq!(
        second,
        broadcast_of(Value::Array(vec![
            Value::Number(Number::from(1)),
            Value::Number(Number::from(2)),
        ]))
    );
}

#[test]
fn bytes_that_are_not_text_are_reported_with_the_bytes() {
    let relay = running();
    let action = relay.on_received(Received::Bytes(vec![0xff, 0xfe, 0x00]));
    assert_eq!(action, Action::Report(Failure::NotText(vec![0xff, 0xfe, 0x00])));
}

#[test]
fn scalar_documents_are_broadcast_as_they_are() {
    let relay = running();
    assert_eq!(relay.on_received(text("null")), broadcast_of(Value::Null));
    assert_eq!(relay.on_received(text("42")), broadcast_of(Value::Number(Number::from(42))));
    assert_eq!(
        relay.on_received(text("\"tick\"")),
        broadcast_of(Value::String("tick".to_string()))
    );
    assert_eq!(relay.on_received(text("-7")), broadcast_of(Value::Number(Number::from(-7))));
}

#[test]
fn document_is_decoded_not_passed_as_text() {
    let relay = running();
    let action = relay.on_received(text("\"a\\nb\""));
    assert_eq!(action, broadcast_of(Value::String("a\nb".to_string())));
    assert_ne!(action, broadcast_of(Value::String("\"a\\nb\"".to_string())));
}

#[test]
fn white_space_around_a_document_is_accepted() {
    let relay = running();
    let mut object = serde_json::Map::new();
    object.insert("a".to_string(), Value::Null);
    assert_eq!(
        relay.on_received(text("  {\"a\": null}\n")),
        broadcast_of(Value::Object(object))
    );
}

#[test]
fn nested_document_keeps_its_shape() {
    let relay = running();
    let mut inner = serde_json::Map::new();
    inner.insert("on".to_string(), Value::Bool(false));
    let mut outer = serde_json::Map::new();
    outer.insert("items".to_string(), Value::Array(vec![Value::Object(inner), Value::Null]));
    assert_eq!(
        relay.on_received(text("{\"items\":[{\"on\":false},null]}")),
        broadcast_of(Value::Object(outer))
    );
}

#[test]
fn empty_and_truncated_and_trailing_text_are_discarded() {
    let relay = running();
    assert_eq!(relay.on_received(text("")), Action::Discard);
    assert_eq!(relay.on_received(text("   ")), Action::Discard);
    assert_eq!(relay.on_received(text("{\"type\":\"tick\"")), Action::Discard);
    assert_eq!(relay.on_received(text("{\"a\":1} x")), Action::Discard);
    assert_eq!(relay.on_received(text("{'a':1}")), Action::Discard);
}

#[test]
fn same_text_gives_the_same_action_each_time() {
    let relay = running();
    let first = relay.on_received(text("{\"k\":[1,2,3]}"));
    let second = relay.on_received(text("{\"k\":[1,2,3]}"));
    assert_eq!(first, second);
}

#[test]
fn run_in_two_parts_is_seen_as_one_run() {
    let relay = running();
    let inputs = vec!["1", "x", "2", "3", "]", "4"];
    let payloads = |part: &[&str]| -> Vec<Value> {
        let mut seen = Vec::new();
        for message in part {
            if let Action::Broadcast { payload, .. } = relay.on_received(text(message)) {
                seen.push(payload);
            }
        }
        seen
    };
    let whole = payloads(&inputs);
    let mut parts = payloads(&inputs[..2]);
    parts.extend(payloads(&inputs[2..]));
    assert_eq!(whole, parts);
    let expected: Vec<Value> = (1..=4).map(|n| Value::Number(Number::from(n))).collect();
    assert_eq!(whole, expected);
}

#[test]
fn decoded_document_is_forwarded_under_the_event_name() {
    assert_eq!(
        forward_decoded(Some(Value::Bool(false))),
        Action::Broadcast { event: "bus-message".to_string(), payload: Value::Bool(false) }
    );
}

#[test]
fn missing_document_is_forwarded_as_discard() {
    assert_eq!(forward_decoded(None), Action::Discard);
}

#[test]
fn event_name_is_bus_message() {
    assert_eq!(event_name_string(), "bus-message");
}

#[test]
fn failed_broadcast_is_reported_and_the_relay_goes_on() {
    let relay = running();
    assert_eq!(
        relay.on_broadcast_done(Err("no listeners".to_string())),
        Some(Failure::Broadcast("no listeners".to_string()))
    );
    assert!(relay.is_running());
    assert_eq!(relay.on_received(text("0")), broadcast_of(Value::Number(Number::from(0))));
}

#[test]
fn successful_broadcast_needs_no_report() {
    let relay = running();
    assert_eq!(relay.on_broadcast_done(Ok(())), None);
}

#[test]
fn outcome_of_a_wait_is_sorted_into_text_bytes_and_error() {
    assert_eq!(
        Received::from_outcome(Ok(Ok("{}".to_string()))),
        Received::Text("{}".to_string())
    );
    assert_eq!(
        Received::from_outcome(Ok(Err(vec![0xc3, 0x28]))),
        Received::Bytes(vec![0xc3, 0x28])
    );
    assert_eq!(
        Received::from_outcome(Err("Interrupted system call".to_string())),
        Received::TransportError("Interrupted system call".to_string())
    );
}

#[test]
fn sorted_outcome_is_served_like_the_message_itself() {
    let relay = running();
    let action = relay.on_received(Received::from_outcome(Ok(Ok("[]".to_string()))));
    assert_eq!(action, broadcast_of(Value::Array(Vec::new())));
}
