//! Tests for the output side: the interpreter, the duty mapping, the PWM
//! register writes, the prescaler, the SMBus payload and the run-loop
//! schedule, with the end-to-end scenarios tying them together.

use roestbak::any_gamepad::AnyGamepad;
use roestbak::any_gamepad::AnyGamepadEvent;
use roestbak::axis::AxisValue;
use roestbak::axis::AXIS_ONE;
use roestbak::detection::GamepadDetector;
use roestbak::folder_monitor::FolderEvent;
use roestbak::gamepad::InputEvent;
use roestbak::gamepad::Trigger;
use roestbak::gamepad::ABS_X;
use roestbak::gamepad::ABS_Y;
use roestbak::gamepad::ABS_RZ;
use roestbak::gamepad::BTN_A;
use roestbak::gamepad::EV_ABS;
use roestbak::gamepad::EV_KEY;
use roestbak::i2c::I2CSMBusData;
use roestbak::i2c::I2CSMBusDataSize;
use roestbak::i2c::I2CSMBusReadWrite;
use roestbak::input_interpreter::GamepadInputInterpreter;
use roestbak::locomotion::arm_esc_writes;
use roestbak::locomotion::execute_command_writes;
use roestbak::locomotion::locomotion_value_to_pwm_on_percentage;
use roestbak::locomotion::LocomotionCommand;
use roestbak::locomotion::PWM_CENTER_ON_FRACTION;
use roestbak::locomotion::PWM_MAX_ON_FRACTION;
use roestbak::locomotion::PWM_MIN_ON_FRACTION;
use roestbak::pca9685::pca9685_init_writes;
use roestbak::pca9685::prescale_value_for_frequency;
use roestbak::pca9685::set_pwm;
use roestbak::pca9685::set_pwm_on_percentage;
use roestbak::pca9685::PwmFraction;
use roestbak::pca9685::RegisterWrite;
use roestbak::pca9685::PWM_FRACTION_ONE;
use roestbak::runloop::RunloopSchedule;
use roestbak::runloop::ScheduleAction;

fn write(register: u8, value: u8) -> RegisterWrite {
    RegisterWrite { register, value }
}

#[test]
fn duty_mapping_hits_the_calibration_points() {
    let neutral = locomotion_value_to_pwm_on_percentage(AxisValue { scaled: 0 });
    assert_eq!(neutral.scaled, PWM_CENTER_ON_FRACTION);
    let forward = locomotion_value_to_pwm_on_percentage(AxisValue { scaled: AXIS_ONE });
    assert_eq!(forward.scaled, PWM_MIN_ON_FRACTION);
    let reverse = locomotion_value_to_pwm_on_percentage(AxisValue { scaled: -AXIS_ONE });
    assert_eq!(reverse.scaled, PWM_MAX_ON_FRACTION);
}

#[test]
fn duty_mapping_is_monotone_decreasing() {
    let mut previous = i64::MAX;
    for raw in [-AXIS_ONE, -AXIS_ONE / 2, -1, 0, 1, AXIS_ONE / 2, AXIS_ONE] {
        let duty = locomotion_value_to_pwm_on_percentage(AxisValue { scaled: raw }).scaled;
        assert!(duty < previous);
        previous = duty;
    }
}

#[test]
fn off_counts_match_the_rounded_twelve_bit_fractions() {
    // Full forward: round(4095 * 0.05) = 205; neutral: round(4095 * 0.075)
    // = 307; full reverse: round(4095 * 0.10) = 410.
    let forward = set_pwm_on_percentage(0, PwmFraction { scaled: PWM_MIN_ON_FRACTION });
    assert_eq!(forward, vec![write(0x06, 0), write(0x07, 0), write(0x08, 205), write(0x09, 0)]);
    let neutral = set_pwm_on_percentage(0, PwmFraction { scaled: PWM_CENTER_ON_FRACTION });
    assert_eq!(neutral, vec![write(0x06, 0), write(0x07, 0), write(0x08, 51), write(0x09, 1)]);
    let reverse = set_pwm_on_percentage(0, PwmFraction { scaled: PWM_MAX_ON_FRACTION });
    assert_eq!(reverse, vec![write(0x06, 0), write(0x07, 0), write(0x08, 154), write(0x09, 1)]);
}

#[test]
fn off_count_saturates_at_the_counter_limits() {
    let zero = set_pwm_on_percentage(0, PwmFraction { scaled: 0 });
    assert_eq!(zero[2], write(0x08, 0));
    assert_eq!(zero[3], write(0x09, 0));
    let full = set_pwm_on_percentage(0, PwmFraction { scaled: PWM_FRACTION_ONE });
    // 4095 = 0x0FFF.
    assert_eq!(full[2], write(0x08, 0xFF));
    assert_eq!(full[3], write(0x09, 0x0F));
}

#[test]
fn set_pwm_writes_channel_registers_low_byte_first() {
    let writes = set_pwm(3, 0x0123, 0x0FFF);
    assert_eq!(
        writes,
        vec![write(0x12, 0x23), write(0x13, 0x01), write(0x14, 0xFF), write(0x15, 0x0F)]
    );
}

#[test]
fn prescaler_for_servo_carrier_is_121() {
    assert_eq!(prescale_value_for_frequency(50), 121);
}

#[test]
fn init_sequence_sleeps_programs_prescale_then_wakes() {
    let writes = pca9685_init_writes(50);
    assert_eq!(
        writes,
        vec![write(0x00, 0x11), write(0x01, 0x04), write(0xFE, 121), write(0x00, 0x01)]
    );
}

#[test]
fn arm_writes_set_the_throttle_channel_to_neutral() {
    let writes = arm_esc_writes();
    assert_eq!(writes, vec![write(0x06, 0), write(0x07, 0), write(0x08, 51), write(0x09, 1)]);
}

#[test]
fn command_construction_keeps_the_axes() {
    let command = LocomotionCommand::new(
        AxisValue { scaled: AXIS_ONE },
        AxisValue { scaled: -AXIS_ONE },
    );
    assert_eq!(command.get_throttle().scaled, AXIS_ONE);
    assert_eq!(command.get_direction().scaled, -AXIS_ONE);
}

#[test]
fn executing_the_same_command_twice_writes_identically() {
    let command = LocomotionCommand::new(
        AxisValue { scaled: AXIS_ONE / 3 },
        AxisValue { scaled: -AXIS_ONE / 7 },
    );
    let first = execute_command_writes(command);
    let second = execute_command_writes(command);
    assert_eq!(first, second);
}

#[test]
fn cold_start_single_device_drives_both_channels() {
    // One device appears, is opened, and reports full right trigger, full
    // left stick deflection and a button press; the command is full forward
    // throttle and full left steering, and the reversed-polarity mapping
    // puts 205 on the throttle channel and 410 on the steering channel.
    let mut detector = GamepadDetector::new();
    detector.register_device(&b"/dev/input/js-evdev0".to_vec());
    let mut orchestrator = AnyGamepad::new(detector);
    let device = orchestrator.device_to_try().expect("a device should be offered");
    assert_eq!(device, b"/dev/input/js-evdev0".to_vec());
    orchestrator.adopt_gamepad();
    let raw = vec![
        InputEvent { event_type: EV_ABS, code: ABS_RZ, value: 1023 },
        InputEvent { event_type: EV_ABS, code: ABS_X, value: -32768 },
        InputEvent { event_type: EV_KEY, code: BTN_A, value: 1 },
    ];
    let events = orchestrator.process_gamepad_events(&raw);
    let mut interpreter = GamepadInputInterpreter::new();
    let command = interpreter.process_input(&events);
    assert_eq!(command.get_throttle().scaled, AXIS_ONE);
    assert_eq!(command.get_direction().scaled, -AXIS_ONE);
    let writes = execute_command_writes(command);
    assert_eq!(writes[2], write(0x08, 205));
    assert_eq!(writes[3], write(0x09, 0));
    // 410 = 0x019A on the steering channel's off registers.
    assert_eq!(writes[6], write(0x0C, 0x9A));
    assert_eq!(writes[7], write(0x0D, 0x01));
}

#[test]
fn deadzone_scenario_yields_a_zero_axis() {
    let mut interpreter = GamepadInputInterpreter::new();
    let raw = vec![InputEvent { event_type: EV_ABS, code: ABS_Y, value: 3000 }];
    let mut gamepad = roestbak::gamepad::Gamepad::new();
    let decoded = gamepad.process_events(&raw);
    let events: Vec<AnyGamepadEvent> = decoded.into_iter().map(AnyGamepadEvent::from).collect();
    let command = interpreter.process_input(&events);
    assert_eq!(command.get_throttle().scaled, 0);
    assert_eq!(command.get_direction().scaled, 0);
}

#[test]
fn hot_plug_and_disconnect_recover_to_neutral() {
    // Start with nothing, hot-plug a device, drive it, lose it: the
    // disconnect resets the state and the same tick commands neutral on
    // both channels.
    let detector = GamepadDetector::new();
    let mut orchestrator = AnyGamepad::new(detector);
    assert_eq!(orchestrator.device_to_try(), None);
    orchestrator.process_detector_updates(&vec![FolderEvent::Added(
        b"/dev/input/js-evdev1".to_vec(),
    )]);
    let device = orchestrator.device_to_try().expect("the new device should be offered");
    assert_eq!(device, b"/dev/input/js-evdev1".to_vec());
    orchestrator.adopt_gamepad();
    let mut interpreter = GamepadInputInterpreter::new();
    let raw = vec![InputEvent { event_type: EV_ABS, code: ABS_RZ, value: 1023 }];
    let events = orchestrator.process_gamepad_events(&raw);
    let driving = interpreter.process_input(&events);
    assert_eq!(driving.get_throttle().scaled, AXIS_ONE);
    // The next read fails; the orchestrator synthesises a disconnect.
    let disconnect = orchestrator.handle_read_error();
    assert_eq!(disconnect, AnyGamepadEvent::Disconnected);
    assert!(!orchestrator.has_gamepad());
    let command = interpreter.process_input(&vec![disconnect]);
    assert_eq!(command.get_throttle().scaled, 0);
    assert_eq!(command.get_direction().scaled, 0);
    let writes = execute_command_writes(command);
    // Both channels at the neutral duty: off count 307 = 0x0133.
    assert_eq!(writes[2], write(0x08, 0x33));
    assert_eq!(writes[3], write(0x09, 0x01));
    assert_eq!(writes[6], write(0x0C, 0x33));
    assert_eq!(writes[7], write(0x0D, 0x01));
}

#[test]
fn trigger_difference_drives_the_throttle() {
    let mut interpreter = GamepadInputInterpreter::new();
    let events = vec![
        AnyGamepadEvent::TriggerAdjusted(Trigger::Right, AxisValue { scaled: AXIS_ONE }),
        AnyGamepadEvent::TriggerAdjusted(Trigger::Left, AxisValue { scaled: AXIS_ONE / 4 }),
    ];
    let command = interpreter.process_input(&events);
    assert_eq!(command.get_throttle().scaled, AXIS_ONE - AXIS_ONE / 4);
}

#[test]
fn schedule_advances_by_exactly_one_interval_per_tick() {
    let interval = 20_000_000u64;  // 20 ms in nanoseconds
    let mut schedule = RunloopSchedule::new(0);
    assert_eq!(schedule.advance(5_000_000, interval), ScheduleAction::SleepUntil(20_000_000));
    assert_eq!(schedule.advance(22_000_000, interval), ScheduleAction::SleepUntil(40_000_000));
    assert_eq!(schedule.advance(41_000_000, interval), ScheduleAction::SleepUntil(60_000_000));
    assert_eq!(schedule.next_deadline, 60_000_000);
}

#[test]
fn overrun_resets_the_schedule_to_now() {
    // A 65 ms tick against a 20 ms interval overruns by 45 ms; the next
    // deadline is the overrun detection instant, with no catch-up burst.
    let interval = 20_000_000u64;
    let mut schedule = RunloopSchedule::new(0);
    let action = schedule.advance(65_000_000, interval);
    assert_eq!(action, ScheduleAction::StartImmediately(45_000_000));
    assert_eq!(schedule.next_deadline, 65_000_000);
    // The following tick is back on a regular schedule.
    assert_eq!(schedule.advance(70_000_000, interval), ScheduleAction::SleepUntil(85_000_000));
}

#[test]
fn smbus_payload_carries_the_value_in_the_first_block_byte() {
    let data = I2CSMBusData::for_write(0xAB);
    assert_eq!(data.block.len(), 34);
    assert_eq!(data.block[0], 0xAB);
    assert!(data.block[1..].iter().all(|byte| *byte == 0));
    let empty = I2CSMBusData::new();
    assert!(empty.block.iter().all(|byte| *byte == 0));
}

#[test]
fn smbus_codes_match_the_kernel_interface() {
    assert_eq!(I2CSMBusReadWrite::Read.into_code(), 1);
    assert_eq!(I2CSMBusReadWrite::Write.into_code(), 0);
    assert_eq!(I2CSMBusDataSize::ByteData.into_code(), 2);
}
