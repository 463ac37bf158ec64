//! Tests for the input side: axis normalisation, evdev decoding with drop
//! recovery, inotify parsing, the detector queue and the signal mapping.

use roestbak::any_gamepad::AnyGamepadEvent;
use roestbak::axis::AxisValue;
use roestbak::axis::AXIS_ONE;
use roestbak::axis::STICK_STEP_NON_NEGATIVE;
use roestbak::axis::TRIGGER_STEP;
use roestbak::detection::is_gamepad_device_file;
use roestbak::detection::GamepadDetector;
use roestbak::folder_monitor::parse_folder_events;
use roestbak::folder_monitor::FolderEvent;
use roestbak::folder_monitor::IN_ATTRIB;
use roestbak::folder_monitor::IN_CREATE;
use roestbak::folder_monitor::IN_DELETE;
use roestbak::folder_monitor::IN_MOVED_TO;
use roestbak::folder_monitor::IN_Q_OVERFLOW;
use roestbak::gamepad::create_dpad_event;
use roestbak::gamepad::create_stick_event;
use roestbak::gamepad::create_trigger_event;
use roestbak::gamepad::process_key_event;
use roestbak::gamepad::Button;
use roestbak::gamepad::DpadAxis;
use roestbak::gamepad::Gamepad;
use roestbak::gamepad::GamepadEvent;
use roestbak::gamepad::InputEvent;
use roestbak::gamepad::Stick;
use roestbak::gamepad::StickAxis;
use roestbak::gamepad::Trigger;
use roestbak::gamepad::ABS_RZ;
use roestbak::gamepad::ABS_X;
use roestbak::gamepad::ABS_Y;
use roestbak::gamepad::BTN_A;
use roestbak::gamepad::BTN_B;
use roestbak::gamepad::EV_ABS;
use roestbak::gamepad::EV_KEY;
use roestbak::gamepad::EV_SYN;
use roestbak::gamepad::SYN_DROPPED;
use roestbak::gamepad::SYN_REPORT;
use roestbak::signals::SignalIntention;
use roestbak::signals::SignalManager;

fn stick_value(event: GamepadEvent) -> AxisValue {
    match event {
        GamepadEvent::StickAdjusted(_, _, value) => value,
        other => panic!("expected a stick event, got {:?}", other),
    }
}

fn trigger_value(event: GamepadEvent) -> AxisValue {
    match event {
        GamepadEvent::TriggerAdjusted(_, value) => value,
        other => panic!("expected a trigger event, got {:?}", other),
    }
}

#[test]
fn stick_extremes_map_exactly_to_full_deflection() {
    let low = create_stick_event(Stick::Left, StickAxis::Horizontal, -32768);
    assert_eq!(stick_value(low).scaled, -AXIS_ONE);
    let high = create_stick_event(Stick::Left, StickAxis::Horizontal, 32767);
    assert_eq!(stick_value(high).scaled, AXIS_ONE);
    let saturated_low = create_stick_event(Stick::Right, StickAxis::Vertical, -40000);
    assert_eq!(stick_value(saturated_low).scaled, -AXIS_ONE);
    let saturated_high = create_stick_event(Stick::Right, StickAxis::Vertical, 40000);
    assert_eq!(stick_value(saturated_high).scaled, AXIS_ONE);
}

#[test]
fn stick_deadzone_collapses_small_values_to_zero() {
    // 3000 / 32767 is roughly 0.0916, inside the 0.15 deadzone.
    let event = create_stick_event(Stick::Left, StickAxis::Vertical, 3000);
    assert_eq!(stick_value(event).scaled, 0);
    let negative = create_stick_event(Stick::Left, StickAxis::Vertical, -3000);
    assert_eq!(stick_value(negative).scaled, 0);
}

#[test]
fn stick_values_outside_deadzone_are_exact() {
    // 10000 / 32767 is roughly 0.305, outside the deadzone.
    let event = create_stick_event(Stick::Left, StickAxis::Horizontal, 10000);
    assert_eq!(stick_value(event).scaled, 10000 * STICK_STEP_NON_NEGATIVE);
}

#[test]
fn trigger_endpoints_saturate_exactly() {
    assert_eq!(trigger_value(create_trigger_event(Trigger::Left, 0)).scaled, 0);
    assert_eq!(trigger_value(create_trigger_event(Trigger::Left, -5)).scaled, 0);
    assert_eq!(trigger_value(create_trigger_event(Trigger::Left, 1023)).scaled, AXIS_ONE);
    assert_eq!(trigger_value(create_trigger_event(Trigger::Left, 2000)).scaled, AXIS_ONE);
}

#[test]
fn trigger_deadzone_boundary_is_exact() {
    // 153 / 1023 is just below 0.15; 154 / 1023 is just above it.
    assert_eq!(trigger_value(create_trigger_event(Trigger::Right, 153)).scaled, 0);
    assert_eq!(
        trigger_value(create_trigger_event(Trigger::Right, 154)).scaled,
        154 * TRIGGER_STEP
    );
}

#[test]
fn dpad_values_are_signums_without_deadzone() {
    let left = create_dpad_event(DpadAxis::Horizontal, -1);
    assert_eq!(left, GamepadEvent::DpadAdjusted(DpadAxis::Horizontal, AxisValue { scaled: -AXIS_ONE }));
    let rest = create_dpad_event(DpadAxis::Vertical, 0);
    assert_eq!(rest, GamepadEvent::DpadAdjusted(DpadAxis::Vertical, AxisValue { scaled: 0 }));
    let clamped = create_dpad_event(DpadAxis::Vertical, 7);
    assert_eq!(clamped, GamepadEvent::DpadAdjusted(DpadAxis::Vertical, AxisValue { scaled: AXIS_ONE }));
}

#[test]
fn key_events_fire_only_on_key_down_of_known_codes() {
    assert_eq!(process_key_event(BTN_A, 1), Some(GamepadEvent::ButtonPressed(Button::A)));
    assert_eq!(process_key_event(BTN_A, 0), None);
    assert_eq!(process_key_event(BTN_A, 2), None);
    assert_eq!(process_key_event(0x1ff, 1), None);
}

#[test]
fn drop_recovery_discards_events_until_syn_report() {
    // The reader sees SYN_DROPPED, five axis events, SYN_REPORT, then a
    // key-down on the east button: only that button press is emitted.
    let mut gamepad = Gamepad::new();
    let mut events = vec![InputEvent { event_type: EV_SYN, code: SYN_DROPPED, value: 0 }];
    for i in 0..5 {
        events.push(InputEvent { event_type: EV_ABS, code: ABS_X, value: 1000 * i });
    }
    events.push(InputEvent { event_type: EV_SYN, code: SYN_REPORT, value: 0 });
    events.push(InputEvent { event_type: EV_KEY, code: BTN_B, value: 1 });
    let decoded = gamepad.process_events(&events);
    assert_eq!(decoded, vec![GamepadEvent::ButtonPressed(Button::B)]);
}

#[test]
fn recovery_state_survives_batch_boundaries() {
    let mut gamepad = Gamepad::new();
    let first = vec![
        InputEvent { event_type: EV_SYN, code: SYN_DROPPED, value: 0 },
        InputEvent { event_type: EV_ABS, code: ABS_RZ, value: 1023 },
    ];
    assert_eq!(gamepad.process_events(&first), vec![]);
    let second = vec![
        InputEvent { event_type: EV_ABS, code: ABS_Y, value: 32767 },
        InputEvent { event_type: EV_SYN, code: SYN_REPORT, value: 0 },
        InputEvent { event_type: EV_ABS, code: ABS_RZ, value: 1023 },
    ];
    let decoded = gamepad.process_events(&second);
    assert_eq!(decoded, vec![GamepadEvent::TriggerAdjusted(Trigger::Right, AxisValue { scaled: AXIS_ONE })]);
}

#[test]
fn syn_report_outside_recovery_emits_nothing() {
    let mut gamepad = Gamepad::new();
    let events = vec![InputEvent { event_type: EV_SYN, code: SYN_REPORT, value: 0 }];
    assert_eq!(gamepad.process_events(&events), vec![]);
}

fn inotify_record(mask: u32, name: &[u8], field_length: usize) -> Vec<u8> {
    let mut record = Vec::new();
    record.extend_from_slice(&1i32.to_le_bytes());
    record.extend_from_slice(&mask.to_le_bytes());
    record.extend_from_slice(&0u32.to_le_bytes());
    record.extend_from_slice(&(field_length as u32).to_le_bytes());
    record.extend_from_slice(name);
    record.resize(16 + field_length, 0);
    record
}

#[test]
fn parse_decodes_packed_records_with_joined_paths() {
    let folder = b"/dev/input/".to_vec();
    let mut buffer = inotify_record(IN_CREATE, b"js-evdev0", 16);
    buffer.extend_from_slice(&inotify_record(IN_DELETE, b"js-evdev1", 12));
    buffer.extend_from_slice(&inotify_record(IN_ATTRIB, b"js-evdev0", 10));
    let events = parse_folder_events(&folder, &buffer);
    assert_eq!(
        events,
        vec![
            FolderEvent::Added(b"/dev/input/js-evdev0".to_vec()),
            FolderEvent::Removed(b"/dev/input/js-evdev1".to_vec()),
            FolderEvent::AttributesChanged(b"/dev/input/js-evdev0".to_vec()),
        ]
    );
}

#[test]
fn parse_joins_with_separator_when_folder_lacks_one() {
    let folder = b"/dev/input".to_vec();
    let buffer = inotify_record(IN_MOVED_TO, b"js-evdev2", 10);
    let events = parse_folder_events(&folder, &buffer);
    assert_eq!(events, vec![FolderEvent::Added(b"/dev/input/js-evdev2".to_vec())]);
}

#[test]
fn parse_emits_overflow_independently_of_other_bits() {
    let folder = b"/dev/input/".to_vec();
    let mut buffer = inotify_record(IN_Q_OVERFLOW, b"", 0);
    buffer.extend_from_slice(&inotify_record(IN_Q_OVERFLOW | IN_CREATE, b"js-evdev3", 10));
    let events = parse_folder_events(&folder, &buffer);
    assert_eq!(
        events,
        vec![
            FolderEvent::EventQueueOverflowed,
            FolderEvent::EventQueueOverflowed,
            FolderEvent::Added(b"/dev/input/js-evdev3".to_vec()),
        ]
    );
}

#[test]
fn parse_ignores_unknown_masks_and_empty_buffers() {
    let folder = b"/dev/input/".to_vec();
    assert_eq!(parse_folder_events(&folder, &Vec::new()), vec![]);
    // 0x2000 is a close-write event, which the watch does not subscribe to.
    let buffer = inotify_record(0x2000, b"js-evdev0", 10);
    assert_eq!(parse_folder_events(&folder, &buffer), vec![]);
}

#[test]
fn device_file_name_pattern_is_exact() {
    assert!(is_gamepad_device_file(&b"/dev/input/js-evdev0".to_vec()));
    assert!(is_gamepad_device_file(&b"/dev/input/js-evdev".to_vec()));
    assert!(is_gamepad_device_file(&b"/dev/input/js-evdev123".to_vec()));
    assert!(is_gamepad_device_file(&b"js-evdev7".to_vec()));
    assert!(!is_gamepad_device_file(&b"/dev/input/jsevdev0".to_vec()));
    assert!(!is_gamepad_device_file(&b"/dev/input/js-evdev1a".to_vec()));
    assert!(!is_gamepad_device_file(&b"/dev/input/event0".to_vec()));
    assert!(!is_gamepad_device_file(&b"/dev/input/".to_vec()));
    assert!(!is_gamepad_device_file(&b"".to_vec()));
}

#[test]
fn detector_counts_adds_and_removes() {
    // Three distinct eligible adds, one duplicate, one ineligible path and
    // one matching remove leave exactly two devices, in insertion order.
    let mut detector = GamepadDetector::new();
    let events = vec![
        FolderEvent::Added(b"/dev/input/js-evdev0".to_vec()),
        FolderEvent::Added(b"/dev/input/js-evdev1".to_vec()),
        FolderEvent::Added(b"/dev/input/js-evdev0".to_vec()),
        FolderEvent::Added(b"/dev/input/event5".to_vec()),
        FolderEvent::Added(b"/dev/input/js-evdev2".to_vec()),
        FolderEvent::Removed(b"/dev/input/js-evdev1".to_vec()),
    ];
    detector.process_updates(&events);
    assert_eq!(
        detector.gamepad_devices,
        vec![b"/dev/input/js-evdev0".to_vec(), b"/dev/input/js-evdev2".to_vec()]
    );
}

#[test]
fn detector_ignores_attribute_changes() {
    let mut detector = GamepadDetector::new();
    detector.register_device(&b"/dev/input/js-evdev0".to_vec());
    detector.process_updates(&vec![FolderEvent::AttributesChanged(
        b"/dev/input/js-evdev0".to_vec(),
    )]);
    assert_eq!(detector.gamepad_devices, vec![b"/dev/input/js-evdev0".to_vec()]);
}

#[test]
fn queue_overflow_clears_the_device_queue() {
    let mut detector = GamepadDetector::new();
    detector.register_device(&b"/dev/input/js-evdev0".to_vec());
    detector.register_device(&b"/dev/input/js-evdev1".to_vec());
    detector.process_updates(&vec![FolderEvent::EventQueueOverflowed]);
    assert_eq!(detector.next_gamepad_device(), None);
    // New additions are detected again afterwards.
    detector.process_updates(&vec![FolderEvent::Added(b"/dev/input/js-evdev4".to_vec())]);
    assert_eq!(detector.next_gamepad_device(), Some(b"/dev/input/js-evdev4".to_vec()));
}

#[test]
fn next_device_rotates_round_robin() {
    let mut detector = GamepadDetector::new();
    detector.register_device(&b"/dev/input/js-evdev0".to_vec());
    detector.register_device(&b"/dev/input/js-evdev1".to_vec());
    detector.register_device(&b"/dev/input/js-evdev2".to_vec());
    let first = detector.next_gamepad_device().unwrap();
    let second = detector.next_gamepad_device().unwrap();
    let third = detector.next_gamepad_device().unwrap();
    let mut seen = vec![first, second, third];
    seen.sort();
    assert_eq!(
        seen,
        vec![
            b"/dev/input/js-evdev0".to_vec(),
            b"/dev/input/js-evdev1".to_vec(),
            b"/dev/input/js-evdev2".to_vec(),
        ]
    );
    // The fourth call wraps around to the first result again.
    assert_eq!(detector.next_gamepad_device().unwrap(), b"/dev/input/js-evdev1".to_vec());
}

#[test]
fn single_device_queue_returns_the_same_device() {
    let mut detector = GamepadDetector::new();
    detector.register_device(&b"/dev/input/js-evdev0".to_vec());
    assert_eq!(detector.next_gamepad_device(), Some(b"/dev/input/js-evdev0".to_vec()));
    assert_eq!(detector.next_gamepad_device(), Some(b"/dev/input/js-evdev0".to_vec()));
}

#[test]
fn gamepad_events_map_onto_orchestrator_events() {
    let event = GamepadEvent::ButtonPressed(Button::A);
    assert_eq!(AnyGamepadEvent::from(event), AnyGamepadEvent::ButtonPressed(Button::A));
    let stick = GamepadEvent::StickAdjusted(Stick::Left, StickAxis::Horizontal, AxisValue { scaled: 5 });
    assert_eq!(
        AnyGamepadEvent::from(stick),
        AnyGamepadEvent::StickAdjusted(Stick::Left, StickAxis::Horizontal, AxisValue { scaled: 5 })
    );
}

#[test]
fn signal_mapping_matches_the_managed_set() {
    let manager = SignalManager::install();
    assert_eq!(manager.signal_numbers(), vec![15, 2, 1]);
    assert_eq!(manager.next_signal(&vec![15]), Some(SignalIntention::Terminate));
    assert_eq!(manager.next_signal(&vec![2]), Some(SignalIntention::Terminate));
    assert_eq!(manager.next_signal(&vec![1]), Some(SignalIntention::ReloadConfiguration));
    assert_eq!(manager.next_signal(&vec![]), None);
    assert_eq!(manager.next_signal(&vec![23, 10]), None);
    // Unknown signals are discarded and the first managed one decides.
    assert_eq!(manager.next_signal(&vec![23, 1, 15]), Some(SignalIntention::ReloadConfiguration));
}
