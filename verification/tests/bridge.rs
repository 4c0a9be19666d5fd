use uprotocol_sensors::BuildError;
use uprotocol_sensors::ConnectEvent;
use uprotocol_sensors::EngageListener;
use uprotocol_sensors::Message;
use uprotocol_sensors::PayloadFormat;
use uprotocol_sensors::PublisherConfig;
use uprotocol_sensors::RetryAction;
use uprotocol_sensors::RetryPolicy;
use uprotocol_sensors::RetryState;
use uprotocol_sensors::apply_all;
use uprotocol_sensors::apply_received;
use uprotocol_sensors::build_publish_message;
use uprotocol_sensors::decode_or_placeholder;
use uprotocol_sensors::run_retry;
use uprotocol_sensors::simulate_run;
use uprotocol_sensors::tick_message;
use uprotocol_sensors::u64_to_decimal;

fn message_with(payload: Option<Vec<u8>>) -> Message {
    Message {
        destination: "vehicle/adas-actor/engage".to_string(),
        ttl_ms: None,
        payload,
        format: PayloadFormat::Text,
    }
}

#[test]
fn retry_connects_after_failures() {
    // Three failures, then one success: four attempts, non-decreasing delays.
    let policy = RetryPolicy::unbounded_default();
    let outcomes = vec![false, false, false, true];
    let session = run_retry(&policy, &outcomes);
    assert!(session.connected);
    assert_eq!(session.attempts, 4);
    assert_eq!(session.delays_ms, vec![1000, 2000, 4000]);
    for pair in session.delays_ms.windows(2) {
        assert!(pair[0] <= pair[1]);
    }
}

#[test]
fn retry_connects_first_try() {
    let policy = RetryPolicy::unbounded_default();
    let session = run_retry(&policy, &vec![true]);
    assert!(session.connected);
    assert_eq!(session.attempts, 1);
    assert!(session.delays_ms.is_empty());
}

#[test]
fn retry_delay_caps_at_maximum() {
    let policy = RetryPolicy::new(1000, 4000, None);
    let outcomes = vec![false, false, false, false, false, true];
    let session = run_retry(&policy, &outcomes);
    assert!(session.connected);
    assert_eq!(session.attempts, 6);
    assert_eq!(session.delays_ms, vec![1000, 2000, 4000, 4000, 4000]);
}

#[test]
fn retry_gives_up_when_bound_reached() {
    let policy = RetryPolicy::new(10, 100, Some(3));
    let outcomes = vec![false, false, false, true];
    let session = run_retry(&policy, &outcomes);
    assert!(!session.connected);
    assert_eq!(session.attempts, 3);
}

#[test]
fn retry_step_reports_scheduled_delay() {
    let policy = RetryPolicy::unbounded_default();
    let mut state = RetryState::new(&policy);
    let first = state.step(&policy, ConnectEvent::Failed);
    assert_eq!(first, RetryAction::Wait { delay_ms: 1000 });
    let second = state.step(&policy, ConnectEvent::Failed);
    assert_eq!(second, RetryAction::Wait { delay_ms: 2000 });
    let done = state.step(&policy, ConnectEvent::Succeeded);
    assert_eq!(done, RetryAction::Done);
}

#[test]
fn listener_stores_valid_utf8_payload() {
    let listener = EngageListener::new();
    listener.on_receive(message_with(Some(b"engaged".to_vec())));
    assert_eq!(listener.latest(), Some("engaged".to_string()));
}

#[test]
fn listener_substitutes_placeholder_for_invalid_utf8() {
    let listener = EngageListener::new();
    listener.on_receive(message_with(Some(vec![0xff, 0xfe, 0x80])));
    assert_eq!(listener.latest(), Some("Invalid UTF-8".to_string()));
}

#[test]
fn listener_keeps_prior_value_on_empty_message() {
    let listener = EngageListener::new();
    assert_eq!(listener.latest(), None);
    listener.on_receive(message_with(None));
    assert_eq!(listener.latest(), None);
    listener.on_receive(message_with(Some(b"true".to_vec())));
    listener.on_receive(message_with(None));
    assert_eq!(listener.latest(), Some("true".to_string()));
}

#[test]
fn serialized_deliveries_leave_one_whole_value() {
    // Three overlapping deliveries in one serialization order: the cell holds
    // exactly the last decoded value, never a mixture.
    let mut cell: Option<String> = None;
    apply_all(
        &mut cell,
        vec![
            Some(b"alpha".to_vec()),
            Some(b"beta".to_vec()),
            Some(b"gamma".to_vec()),
        ],
    );
    let held = cell.expect("a payload-carrying delivery fills the cell");
    assert_eq!(held, "gamma");
    assert!(["alpha", "beta", "gamma"].contains(&held.as_str()));
}

#[test]
fn apply_received_overwrites_cell() {
    let mut cell: Option<String> = Some("old".to_string());
    apply_received(&mut cell, Some(b"new".to_vec()));
    assert_eq!(cell, Some("new".to_string()));
    apply_received(&mut cell, None);
    assert_eq!(cell, Some("new".to_string()));
}

#[test]
fn decode_passes_text_through_and_replaces_garbage() {
    assert_eq!(decode_or_placeholder(b"1730000000".to_vec()), "1730000000");
    assert_eq!(decode_or_placeholder(vec![0xc0, 0xaf]), "Invalid UTF-8");
    assert_eq!(decode_or_placeholder(Vec::new()), "");
}

#[test]
fn decimal_rendering_is_exact() {
    assert_eq!(u64_to_decimal(0), b"0".to_vec());
    assert_eq!(u64_to_decimal(7), b"7".to_vec());
    assert_eq!(u64_to_decimal(407), b"407".to_vec());
    assert_eq!(u64_to_decimal(1000), b"1000".to_vec());
    assert_eq!(
        u64_to_decimal(u64::MAX),
        b"18446744073709551615".to_vec()
    );
}

#[test]
fn build_rejects_empty_destination() {
    let r = build_publish_message(String::new(), 1000, b"1".to_vec(), PayloadFormat::Text);
    assert_eq!(r.unwrap_err(), BuildError::EmptyDestination);
}

#[test]
fn build_keeps_all_fields() {
    let m = build_publish_message(
        "vehicle/adas-actor/event_created".to_string(),
        1000,
        b"1730000000".to_vec(),
        PayloadFormat::Text,
    )
    .unwrap();
    assert_eq!(m.destination, "vehicle/adas-actor/event_created");
    assert_eq!(m.ttl_ms, Some(1000));
    assert_eq!(m.payload, Some(b"1730000000".to_vec()));
    assert_eq!(m.format, PayloadFormat::Text);
}

#[test]
fn tick_message_carries_epoch_seconds() {
    let cfg = PublisherConfig {
        destination: "vehicle/adas-actor/event_created".to_string(),
        interval_ms: 1000,
        ttl_ms: 1000,
    };
    let m = tick_message(&cfg, 1730000000).unwrap();
    assert_eq!(m.payload, Some(b"1730000000".to_vec()));
    assert_eq!(m.ttl_ms, Some(1000));
    assert_eq!(m.format, PayloadFormat::Text);
}

#[test]
fn publisher_sends_floor_of_duration_over_interval() {
    // Ten seconds at a three-second interval: three sends.
    let cfg = PublisherConfig {
        destination: "vehicle/adas-actor/event_created".to_string(),
        interval_ms: 3000,
        ttl_ms: 1000,
    };
    let log = simulate_run(&cfg, 100, 10000, &vec![true; 3]);
    assert_eq!(log.attempted.len(), 3);
    assert_eq!(log.delivered, vec![true; 3]);
}

#[test]
fn publisher_continues_when_every_send_fails() {
    let cfg = PublisherConfig {
        destination: "vehicle/adas-actor/event_created".to_string(),
        interval_ms: 1000,
        ttl_ms: 1000,
    };
    let log = simulate_run(&cfg, 0, 5000, &vec![false; 5]);
    assert_eq!(log.attempted.len(), 5);
    assert_eq!(log.delivered, vec![false; 5]);
}

#[test]
fn three_and_a_half_seconds_give_three_increasing_sends() {
    // End-to-end shape: one-second interval, 3.5 s of run time, a transport
    // that always succeeds: exactly three sends, each payload the epoch
    // seconds of its tick, strictly increasing, each with a one-second TTL.
    let start = 1730000000;
    let cfg = PublisherConfig {
        destination: "vehicle/adas-actor/event_created".to_string(),
        interval_ms: 1000,
        ttl_ms: 1000,
    };
    let log = simulate_run(&cfg, start, 3500, &vec![true; 4]);
    assert_eq!(log.attempted.len(), 3);
    assert_eq!(log.delivered, vec![true; 3]);
    let mut previous: Option<u64> = None;
    for (i, m) in log.attempted.iter().enumerate() {
        assert_eq!(m.destination, "vehicle/adas-actor/event_created");
        assert_eq!(m.ttl_ms, Some(1000));
        let text = String::from_utf8(m.payload.clone().unwrap()).unwrap();
        let stamp: u64 = text.parse().unwrap();
        assert_eq!(stamp, start + 1 + i as u64);
        if let Some(p) = previous {
            assert!(stamp > p);
        }
        previous = Some(stamp);
    }
}
