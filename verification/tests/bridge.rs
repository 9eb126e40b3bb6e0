use temper_bridge::discovery::{find_device, sensor_identity, DeviceIdentity};
use temper_bridge::protocol::{
    decode_centi, firmware_matches, run_session, sample_valid, CycleResponses, SensorError,
    SensorLink, StepResult, TemperaturePair,
};
use temper_bridge::publishing::{
    build_descriptors, build_unique_id, config_topic, default_timing, plan_cycle,
    publish_round_succeeded, should_terminate, state_topic, CycleAction, StatePayload,
    TransportEvent,
};

const FIRMWARE_TAG: [u8; 8] = [0x54, 0x45, 0x4d, 0x50, 0x65, 0x72, 0x32, 0x5f];

fn degrees(centi: i16) -> f32 {
    (centi as f32) / 100.0
}

fn responses(firmware: [u8; 8], warmup: [u8; 8], inside: [u8; 8], outside: [u8; 8]) -> CycleResponses {
    CycleResponses { firmware, warmup, inside, outside }
}

#[test]
fn decode_zero() {
    let t = decode_centi(0x00, 0x00);
    assert_eq!(t, 0);
    assert_eq!(degrees(t), 0.0);
}

#[test]
fn decode_twenty_five() {
    let t = decode_centi(0x09, 0xc4);
    assert_eq!(t, 2500);
    assert_eq!(degrees(t), 25.0);
}

#[test]
fn decode_minus_one() {
    let t = decode_centi(0xff, 0x9c);
    assert_eq!(t, -100);
    assert_eq!(degrees(t), -1.0);
}

#[test]
fn decode_minimum() {
    let t = decode_centi(0x80, 0x00);
    assert_eq!(t, -32768);
    assert_eq!(degrees(t), -327.68);
}

#[test]
fn firmware_exact_match_accepted() {
    assert!(firmware_matches(&FIRMWARE_TAG));
}

#[test]
fn firmware_any_byte_difference_rejected() {
    for i in 0..8 {
        let mut tag = FIRMWARE_TAG;
        tag[i] ^= 0x01;
        assert!(!firmware_matches(&tag));
    }
}

#[test]
fn firmware_case_sensitive() {
    // "temper2_" in lower case
    let lower: [u8; 8] = [0x74, 0x65, 0x6d, 0x70, 0x65, 0x72, 0x32, 0x5f];
    assert!(!firmware_matches(&lower));
}

#[test]
fn firmware_whitespace_sensitive() {
    // "TEMPer2 " with a trailing space instead of the underscore
    let spaced: [u8; 8] = [0x54, 0x45, 0x4d, 0x50, 0x65, 0x72, 0x32, 0x20];
    assert!(!firmware_matches(&spaced));
}

#[test]
fn firmware_mismatch_never_yields_pair() {
    let bad: [u8; 8] = [0x54, 0x45, 0x4d, 0x50, 0x65, 0x72, 0x31, 0x5f];
    let good_sample: [u8; 8] = [0x80, 0, 0x09, 0xc4, 0, 0, 0, 0];
    let r = run_session(&responses(bad, good_sample, good_sample, good_sample));
    assert_eq!(r, Err(SensorError::UnsupportedFirmware(bad)));
}

#[test]
fn sentinel_rejected_regardless_of_status_byte() {
    for b0 in [0x00u8, 0x7f, 0x80, 0x81, 0xff] {
        let buf: [u8; 8] = [b0, 0, 0x4e, 0x20, 0, 0, 0, 0];
        assert!(!sample_valid(&buf));
    }
}

#[test]
fn bad_status_rejected_regardless_of_payload() {
    for (b2, b3) in [(0x00u8, 0x00u8), (0x09, 0xc4), (0x4e, 0x20), (0xff, 0x9c)] {
        let buf: [u8; 8] = [0x7f, 0, b2, b3, 0, 0, 0, 0];
        assert!(!sample_valid(&buf));
    }
}

#[test]
fn good_buffer_accepted() {
    let buf: [u8; 8] = [0x80, 0, 0x09, 0xc4, 0, 0, 0, 0];
    assert!(sample_valid(&buf));
}

#[test]
fn warmup_contents_never_reach_the_pair() {
    let zero: [u8; 8] = [0x80, 0, 0x00, 0x00, 0, 0, 0, 0];
    // Warm-up responses of every shape: valid with a distinctive value, the
    // sentinel, a bad status byte, arbitrary garbage.
    let warmups: [[u8; 8]; 4] = [
        [0x80, 0, 0x09, 0xc4, 0, 0, 0, 0],
        [0x80, 0, 0x4e, 0x20, 0, 0, 0, 0],
        [0x00, 0, 0x12, 0x34, 0, 0, 0, 0],
        [0xde, 0xad, 0xbe, 0xef, 0xde, 0xad, 0xbe, 0xef],
    ];
    for warmup in warmups {
        let r = run_session(&responses(FIRMWARE_TAG, warmup, zero, zero));
        assert_eq!(r, Ok(TemperaturePair { inside_centi: 0, outside_centi: 0 }));
    }
}

#[test]
fn first_of_two_identical_devices_wins() {
    let target = sensor_identity();
    let other = DeviceIdentity { vendor_id: 0x046d, product_id: 0xc534, interface_number: 0 };
    let devices = vec![other, target, target];
    let found = find_device(&devices, &target);
    assert_eq!(found, Some(1));
}

#[test]
fn no_matching_device_finds_none() {
    let target = sensor_identity();
    let near_misses = vec![
        DeviceIdentity { vendor_id: 0x1a86, product_id: 0xe025, interface_number: 0 },
        DeviceIdentity { vendor_id: 0x1a86, product_id: 0xe026, interface_number: 1 },
        DeviceIdentity { vendor_id: 0x1a87, product_id: 0xe025, interface_number: 1 },
    ];
    assert_eq!(find_device(&near_misses, &target), None);
    assert_eq!(find_device(&Vec::new(), &target), None);
}

#[test]
fn failing_cycle_then_normal_cycle() {
    let zero: [u8; 8] = [0x80, 0, 0x00, 0x00, 0, 0, 0, 0];
    let sentinel: [u8; 8] = [0x80, 0, 0x4e, 0x20, 0, 0, 0, 0];
    let warm: [u8; 8] = [0x80, 0, 0x11, 0x22, 0, 0, 0, 0];
    let inside: [u8; 8] = [0x80, 0, 0x09, 0xc4, 0, 0, 0, 0];

    let first = run_session(&responses(FIRMWARE_TAG, warm, sentinel, zero));
    assert_eq!(first, Err(SensorError::InsideReadInvalid));

    let second = run_session(&responses(FIRMWARE_TAG, warm, inside, zero));
    assert_eq!(second, Ok(TemperaturePair { inside_centi: 2500, outside_centi: 0 }));
}

#[test]
fn command_sequence_of_one_session() {
    let mut link = SensorLink::new();

    let fw_cmd = link.next_command().expect("a firmware query is owed first");
    assert_eq!(fw_cmd, [0x01, 0x86, 0xff, 0x01, 0, 0, 0, 0]);
    assert!(matches!(link.on_read(&FIRMWARE_TAG), StepResult::Continue));

    let warm_cmd = link.next_command().expect("a trigger is owed for the warm-up read");
    assert_eq!(warm_cmd, [0x01, 0x80, 0x33, 0x01, 0, 0, 0, 0]);
    assert!(matches!(link.on_read(&[0xff; 8]), StepResult::Continue));

    let sample_cmd = link.next_command().expect("a trigger is owed for the real reads");
    assert_eq!(sample_cmd, [0x01, 0x80, 0x33, 0x01, 0, 0, 0, 0]);
    assert!(matches!(
        link.on_read(&[0x80, 0, 0x09, 0xc4, 0, 0, 0, 0]),
        StepResult::Continue
    ));

    // The outside sample follows the inside one with no further write.
    assert!(link.next_command().is_none());
    match link.on_read(&[0x80, 0, 0xff, 0x9c, 0, 0, 0, 0]) {
        StepResult::Done(pair) => {
            assert_eq!(pair, TemperaturePair { inside_centi: 2500, outside_centi: -100 });
        }
        other => panic!("session should finish, got {:?}", other),
    }
}

#[test]
fn successful_cycle_publishes_state() {
    let warm: [u8; 8] = [0x80, 0, 0x00, 0x00, 0, 0, 0, 0];
    let inside: [u8; 8] = [0x80, 0, 0x09, 0xc4, 0, 0, 0, 0];
    let outside: [u8; 8] = [0x80, 0, 0x00, 0x00, 0, 0, 0, 0];

    let result = run_session(&responses(FIRMWARE_TAG, warm, inside, outside));
    let pair = result.expect("the cycle should succeed");
    assert_eq!(degrees(pair.inside_centi), 25.0);
    assert_eq!(degrees(pair.outside_centi), 0.0);

    match plan_cycle(&result) {
        CycleAction::Publish(payload) => {
            assert_eq!(payload, StatePayload { outside_centi: 0, inside_centi: 2500 });
            assert_eq!(degrees(payload.outside_centi), 0.0);
            assert_eq!(degrees(payload.inside_centi), 25.0);
        }
        CycleAction::Skip(e) => panic!("nothing to skip, got {:?}", e),
    }
}

#[test]
fn disconnected_probe_skips_the_cycle() {
    let warm: [u8; 8] = [0x80, 0, 0x00, 0x00, 0, 0, 0, 0];
    let inside: [u8; 8] = [0x80, 0, 0x09, 0xc4, 0, 0, 0, 0];
    let sentinel: [u8; 8] = [0x80, 0, 0x4e, 0x20, 0, 0, 0, 0];

    let result = run_session(&responses(FIRMWARE_TAG, warm, inside, sentinel));
    assert_eq!(result, Err(SensorError::OutsideReadInvalid));

    match plan_cycle(&result) {
        CycleAction::Skip(e) => assert_eq!(e, SensorError::OutsideReadInvalid),
        CycleAction::Publish(p) => panic!("no publish is due, got {:?}", p),
    }

    // The next tick attempts a full cycle as if nothing had happened.
    let outside: [u8; 8] = [0x80, 0, 0xff, 0x9c, 0, 0, 0, 0];
    let next = run_session(&responses(FIRMWARE_TAG, warm, inside, outside));
    assert_eq!(next, Ok(TemperaturePair { inside_centi: 2500, outside_centi: -100 }));
}

#[test]
fn descriptors_share_template_and_differ_in_two_fields() {
    let (room, aquarium) = build_descriptors("fishtank");

    assert_eq!(room.state_topic, "homeassistant/sensor/aquariumTemp/state");
    assert_eq!(room.state_class, "measurement");
    assert_eq!(room.device_class, "temperature");
    assert_eq!(room.unit_of_measurement, "\u{b0}C");
    assert_eq!(room.icon, "mdi:thermometer");
    assert_eq!(room.unique_id, "aquarium_fishtank");
    assert_eq!(room.name, "Room Temperature");
    assert_eq!(room.value_template, "{{ value_json.outside_temperature }}");

    assert_eq!(aquarium.name, "Aquarium Temperature");
    assert_eq!(aquarium.value_template, "{{ value_json.inside_temperature }}");
    assert_eq!(aquarium.state_topic, room.state_topic);
    assert_eq!(aquarium.state_class, room.state_class);
    assert_eq!(aquarium.device_class, room.device_class);
    assert_eq!(aquarium.unit_of_measurement, room.unit_of_measurement);
    assert_eq!(aquarium.icon, room.icon);
    assert_eq!(aquarium.unique_id, room.unique_id);
}

#[test]
fn unique_id_prefixes_the_host() {
    assert_eq!(build_unique_id("pi"), "aquarium_pi");
    assert_eq!(build_unique_id(""), "aquarium_");
}

#[test]
fn topics_and_timing_are_fixed() {
    assert_eq!(config_topic(), "homeassistant/sensor/aquariumTemp/config");
    assert_eq!(state_topic(), "homeassistant/sensor/aquariumTemp/state");
    let timing = default_timing();
    assert_eq!(timing.read_timeout_ms, 1000);
    assert_eq!(timing.poll_interval_secs, 10);
    let id = sensor_identity();
    assert_eq!(id.vendor_id, 0x1a86);
    assert_eq!(id.product_id, 0xe025);
    assert_eq!(id.interface_number, 1);
}

#[test]
fn one_failed_publish_fails_the_round() {
    assert!(publish_round_succeeded(true, true, true));
    assert!(!publish_round_succeeded(false, true, true));
    assert!(!publish_round_succeeded(true, false, true));
    assert!(!publish_round_succeeded(true, true, false));
    assert!(!publish_round_succeeded(false, false, false));
}

#[test]
fn only_a_transport_failure_terminates() {
    assert!(!should_terminate(&TransportEvent::Connected));
    assert!(!should_terminate(&TransportEvent::Disconnected));
    assert!(!should_terminate(&TransportEvent::Other));
    assert!(should_terminate(&TransportEvent::Failed));
}
