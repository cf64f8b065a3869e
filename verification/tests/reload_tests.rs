use clap_adapters::{JsonOf, LiveValue, LoadError, StreamNext};

fn json_value(text: &str) -> serde_json::Value {
    serde_json::from_str(text).expect("test fixture must parse")
}

#[test]
fn construction_seeds_the_current_cell() {
    let live = LiveValue::<JsonOf>::load("/tmp/a.json".to_string(), b"{\"v\":1}".to_vec())
        .unwrap();
    let snap = live.snapshot();
    assert_eq!(snap.path, "/tmp/a.json");
    assert_eq!(snap.data.0, json_value("{\"v\":1}"));
}

#[test]
fn failed_initial_load_fails_construction() {
    let err = match LiveValue::<JsonOf>::load("/tmp/a.json".to_string(), b"{\"v\":".to_vec()) {
        Ok(_) => panic!("malformed bytes must fail construction"),
        Err(e) => e,
    };
    assert!(matches!(err, LoadError::Decode { .. }));
}

#[test]
fn stream_yields_the_current_value_immediately() {
    let live = LiveValue::<JsonOf>::load("cfg".to_string(), b"{\"v\":1}".to_vec()).unwrap();
    let mut sub = live.stream();
    let first = sub.recv(&live).expect("the stream starts with the current value");
    assert_eq!(first.data.0, json_value("{\"v\":1}"));
    assert!(sub.recv(&live).is_none());
}

#[test]
fn receiver_observes_only_future_publishes() {
    let mut live = LiveValue::<JsonOf>::load("cfg".to_string(), b"{\"v\":1}".to_vec()).unwrap();
    let mut sub = live.receiver();
    assert!(sub.recv(&live).is_none());
    live.reload_from_bytes(b"{\"v\":2}".to_vec()).unwrap();
    let seen = sub.recv(&live).expect("a publish after acquisition is observed");
    assert_eq!(seen.data.0, json_value("{\"v\":2}"));
}

#[test]
fn successful_reload_publishes_the_new_value() {
    let mut live = LiveValue::<JsonOf>::load("cfg".to_string(), b"{\"v\":1}".to_vec()).unwrap();
    let mut sub = live.stream();
    assert!(sub.recv(&live).is_some());
    live.reload_from_bytes(b"{\"v\":2}".to_vec()).unwrap();
    let seen = sub.recv(&live).expect("the publish is observed");
    assert_eq!(seen.data.0, json_value("{\"v\":2}"));
    assert_eq!(live.snapshot().data.0, json_value("{\"v\":2}"));
    assert_eq!(live.snapshot().path, "cfg");
}

#[test]
fn failed_reload_keeps_the_current_cell() {
    let mut live = LiveValue::<JsonOf>::load("cfg".to_string(), b"{\"v\":1}".to_vec()).unwrap();
    live.reload_from_bytes(b"{\"v\":2}".to_vec()).unwrap();
    let mut sub = live.stream();
    assert!(sub.recv(&live).is_some());
    let err = live.reload_from_bytes(b"{\"v\":".to_vec()).unwrap_err();
    assert!(matches!(err, LoadError::Decode { .. }));
    assert_eq!(live.snapshot().data.0, json_value("{\"v\":2}"));
    assert!(sub.recv(&live).is_none(), "a failed reload publishes nothing");
}

#[test]
fn slow_subscribers_converge_to_the_latest_value() {
    let mut live = LiveValue::<JsonOf>::load("cfg".to_string(), b"{\"n\":0}".to_vec()).unwrap();
    let mut sub = live.stream();
    live.reload_from_bytes(b"{\"n\":1}".to_vec()).unwrap();
    live.reload_from_bytes(b"{\"n\":2}".to_vec()).unwrap();
    live.reload_from_bytes(b"{\"n\":3}".to_vec()).unwrap();
    let seen = sub.recv(&live).expect("something was published");
    assert_eq!(seen.data.0, json_value("{\"n\":3}"), "intermediate values are lost");
    assert!(sub.recv(&live).is_none(), "after convergence nothing is pending");
}

#[test]
fn subscriber_next_equals_snapshot_when_publishes_stop() {
    let mut live = LiveValue::<JsonOf>::load("cfg".to_string(), b"{\"n\":0}".to_vec()).unwrap();
    let mut sub = live.stream();
    live.reload_from_bytes(b"{\"n\":7}".to_vec()).unwrap();
    let next = sub.recv(&live).expect("a publish is pending");
    assert_eq!(next.data.0, live.snapshot().data.0);
}

#[test]
fn periodic_update_sequence_is_observed_in_order() {
    let mut live = LiveValue::<JsonOf>::load("cfg".to_string(), b"{\"n\":0}".to_vec()).unwrap();
    let mut sub = live.stream();
    let first = sub.recv(&live).unwrap();
    assert_eq!(first.data.0, json_value("{\"n\":0}"));
    live.reload_from_bytes(b"{\"n\":1}".to_vec()).unwrap();
    let second = sub.recv(&live).unwrap();
    assert_eq!(second.data.0, json_value("{\"n\":1}"));
}

#[test]
fn teardown_ends_caught_up_streams() {
    let mut live = LiveValue::<JsonOf>::load("cfg".to_string(), b"{\"v\":1}".to_vec()).unwrap();
    let mut sub = live.stream();
    assert!(matches!(sub.next(&live), StreamNext::Item(_)));
    assert!(matches!(sub.next(&live), StreamNext::Pending));
    live.close();
    assert!(matches!(sub.next(&live), StreamNext::Ended));
    assert!(matches!(sub.next(&live), StreamNext::Ended));
}

#[test]
fn teardown_still_lets_subscribers_drain_the_last_value() {
    let mut live = LiveValue::<JsonOf>::load("cfg".to_string(), b"{\"v\":1}".to_vec()).unwrap();
    live.reload_from_bytes(b"{\"v\":2}".to_vec()).unwrap();
    let mut sub = live.stream();
    live.close();
    match sub.next(&live) {
        StreamNext::Item(v) => assert_eq!(v.data.0, json_value("{\"v\":2}")),
        other => panic!("expected the final value, got a different step: {:?}", stream_kind(&other)),
    }
    assert!(matches!(sub.next(&live), StreamNext::Ended));
}

fn stream_kind<T>(step: &StreamNext<'_, T>) -> &'static str {
    match step {
        StreamNext::Item(_) => "item",
        StreamNext::Pending => "pending",
        StreamNext::Ended => "ended",
    }
}

#[test]
fn text_documents_reload_like_structured_ones() {
    let mut live = LiveValue::<String>::load("note.txt".to_string(), b"first".to_vec()).unwrap();
    assert_eq!(live.snapshot().data, "first");
    live.reload_from_bytes(b"second".to_vec()).unwrap();
    assert_eq!(live.snapshot().data, "second");
    let err = live.reload_from_bytes(vec![0xff, 0xfe]).unwrap_err();
    assert!(matches!(err, LoadError::Decode { .. }));
    assert_eq!(live.snapshot().data, "second");
}

#[test]
fn subscribers_drop_independently_of_the_producer() {
    let mut live = LiveValue::<JsonOf>::load("cfg".to_string(), b"{\"v\":1}".to_vec()).unwrap();
    let sub = live.stream();
    drop(sub);
    live.reload_from_bytes(b"{\"v\":2}".to_vec()).unwrap();
    assert_eq!(live.snapshot().data.0, json_value("{\"v\":2}"));
}
