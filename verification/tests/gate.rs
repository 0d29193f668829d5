use telemetry_node::mqtt::decide;
use telemetry_node::mqtt::publish_to_topic;
use telemetry_node::mqtt::reading_to_bytes;
use telemetry_node::mqtt::Decision;
use telemetry_node::mqtt::GateState;
use telemetry_node::mqtt::HYSTERESIS;

fn run(readings: &[u32], threshold: u32) -> (Vec<bool>, Vec<GateState>) {
    let mut state = GateState::Below;
    let mut flags = Vec::new();
    let mut states = Vec::new();
    for &reading in readings {
        let d = decide(reading, threshold, state);
        state = d.new_state;
        flags.push(d.should_publish);
        states.push(d.new_state);
    }
    (flags, states)
}

#[test]
fn margin_is_two() {
    assert_eq!(HYSTERESIS, 2);
}

#[test]
fn gate_starts_closed() {
    assert_eq!(GateState::default(), GateState::Below);
}

#[test]
fn closed_gate_opens_only_above_the_upper_trip_point() {
    assert_eq!(
        decide(12, 10, GateState::Below),
        Decision { should_publish: false, new_state: GateState::Below }
    );
    assert_eq!(
        decide(13, 10, GateState::Below),
        Decision { should_publish: true, new_state: GateState::Above }
    );
    assert_eq!(
        decide(0, 0, GateState::Below),
        Decision { should_publish: false, new_state: GateState::Below }
    );
    assert_eq!(
        decide(3, 0, GateState::Below),
        Decision { should_publish: true, new_state: GateState::Above }
    );
}

#[test]
fn closed_gate_publishes_iff_reading_exceeds_threshold_plus_two() {
    for threshold in 0u32..40 {
        for reading in 0u32..60 {
            let d = decide(reading, threshold, GateState::Below);
            assert_eq!(d.should_publish, reading > threshold + 2);
            assert_eq!(d.new_state == GateState::Above, d.should_publish);
        }
    }
}

#[test]
fn open_gate_holds_back_readings_below_the_lower_trip_point() {
    assert_eq!(
        decide(7, 10, GateState::Above),
        Decision { should_publish: false, new_state: GateState::Above }
    );
    assert_eq!(
        decide(0, 3, GateState::Above),
        Decision { should_publish: false, new_state: GateState::Above }
    );
}

#[test]
fn open_gate_publishes_readings_at_or_above_the_lower_trip_point() {
    assert_eq!(
        decide(8, 10, GateState::Above),
        Decision { should_publish: true, new_state: GateState::Above }
    );
    assert_eq!(
        decide(20, 10, GateState::Above),
        Decision { should_publish: true, new_state: GateState::Above }
    );
}

#[test]
fn open_gate_never_closes() {
    for threshold in 0u32..40 {
        for reading in 0u32..60 {
            let d = decide(reading, threshold, GateState::Above);
            assert_eq!(d.new_state, GateState::Above);
            assert_eq!(d.should_publish, i64::from(reading) >= i64::from(threshold) - 2);
        }
    }
}

#[test]
fn thresholds_under_the_margin_have_no_lower_trip_point() {
    assert!(decide(0, 0, GateState::Above).should_publish);
    assert!(decide(0, 1, GateState::Above).should_publish);
    assert!(decide(0, 2, GateState::Above).should_publish);
    assert!(!decide(0, 3, GateState::Above).should_publish);
}

#[test]
fn thresholds_at_the_top_of_the_range_do_not_wrap() {
    assert!(!decide(u32::MAX, u32::MAX, GateState::Below).should_publish);
    assert!(!decide(u32::MAX, u32::MAX - 1, GateState::Below).should_publish);
    assert!(!decide(u32::MAX, u32::MAX - 2, GateState::Below).should_publish);
    assert!(decide(u32::MAX, u32::MAX - 3, GateState::Below).should_publish);
    assert!(decide(u32::MAX, u32::MAX, GateState::Above).should_publish);
    assert!(decide(u32::MAX - 2, u32::MAX, GateState::Above).should_publish);
    assert!(!decide(u32::MAX - 3, u32::MAX, GateState::Above).should_publish);
}

#[test]
fn reading_sequence_with_fixed_threshold() {
    // 5 and 12 do not exceed 10 + 2; 20 opens the publish gate; 6 is below 10 - 2.
    let (flags, states) = run(&[5, 12, 20, 6], 10);
    assert_eq!(flags, vec![false, false, true, false]);
    assert_eq!(
        states,
        vec![GateState::Below, GateState::Below, GateState::Above, GateState::Above]
    );
}

#[test]
fn reading_sequence_that_stays_in_the_band() {
    let (flags, states) = run(&[5, 13, 20, 8], 10);
    assert_eq!(flags, vec![false, true, true, true]);
    assert_eq!(
        states,
        vec![GateState::Below, GateState::Above, GateState::Above, GateState::Above]
    );
}

#[test]
fn readings_travel_big_endian() {
    assert_eq!(reading_to_bytes(0), [0, 0, 0, 0]);
    assert_eq!(reading_to_bytes(10), [0, 0, 0, 10]);
    assert_eq!(reading_to_bytes(0x0102_0304), [1, 2, 3, 4]);
    assert_eq!(reading_to_bytes(u32::MAX), [255, 255, 255, 255]);
    for reading in [1u32, 255, 256, 65_535, 65_536, 16_777_216, 3_000_000_000] {
        assert_eq!(reading_to_bytes(reading), reading.to_be_bytes());
    }
}

#[test]
fn publication_carries_the_reading_when_the_gate_lets_it_pass() {
    let out = publish_to_topic(25, 10, GateState::Below);
    assert_eq!(out.new_state, GateState::Above);
    assert_eq!(out.payload, Some([0, 0, 0, 25]));

    let out = publish_to_topic(9, 10, GateState::Above);
    assert_eq!(out.new_state, GateState::Above);
    assert_eq!(out.payload, Some([0, 0, 0, 9]));
}

#[test]
fn publication_is_empty_when_the_gate_holds_the_reading_back() {
    let out = publish_to_topic(12, 10, GateState::Below);
    assert_eq!(out.new_state, GateState::Below);
    assert_eq!(out.payload, None);

    let out = publish_to_topic(7, 10, GateState::Above);
    assert_eq!(out.new_state, GateState::Above);
    assert_eq!(out.payload, None);
}
