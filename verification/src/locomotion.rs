//! The locomotion controller: mapping normalised throttle and direction
//! values to the PWM register writes that drive the ESC and the steering
//! servo.
//!
//! The carrier runs at 50 Hz; the pulse targets are 1 ms (minimum), 1.5 ms
//! (centre) and 2 ms (maximum) per 20 ms cycle, that is duty fractions of
//! `0.05`, `0.075` and `0.10`.  The test vehicle's ESC and steering use
//! reversed polarity, so a positive axis value maps to a shorter pulse; this
//! calibration choice is deliberate and must be preserved.

use vstd::prelude::*;

use crate::axis::AxisValue;
use crate::axis::AXIS_ONE;
use crate::pca9685::spec_off_count;
use crate::pca9685::spec_set_pwm_writes;
use crate::pca9685::set_pwm_on_percentage;
use crate::pca9685::PwmFraction;
use crate::pca9685::RegisterWrite;

verus! {

/// A failure to set the controller up: the PWM device could not be brought
/// up, or the ESC's arming write failed.
#[derive(Clone, Debug, PartialEq, Eq)]
pub enum SetupError {
    PCA9685SetupError { source: crate::pca9685::SetupError },
    CouldNotInitializeESC { source: crate::pca9685::SetPWMError },
}

/// A failure to carry a command onto the bus.
#[derive(Clone, Debug, PartialEq, Eq)]
pub enum ExecuteCommandError {
    SetPWMError { source: crate::pca9685::SetPWMError },
}

impl core::convert::From<crate::pca9685::SetPWMError> for ExecuteCommandError {
    fn from(source: crate::pca9685::SetPWMError) -> (converted: ExecuteCommandError) {
        ExecuteCommandError::SetPWMError { source }
    }
}

impl vstd::std_specs::convert::FromSpecImpl<crate::pca9685::SetPWMError> for ExecuteCommandError {
    open spec fn obeys_from_spec() -> bool {
        true
    }

    open spec fn from_spec(source: crate::pca9685::SetPWMError) -> ExecuteCommandError {
        ExecuteCommandError::SetPWMError { source }
    }
}

/// The PWM channel driving the ESC.
pub const PCA9685_THROTTLE_CHANNEL: u8 = 0;

/// The PWM channel driving the steering servo.
pub const PCA9685_STEERING_CHANNEL: u8 = 1;

/// The PWM carrier frequency in Hz.
pub const PWM_FREQUENCY: u32 = 50;

/// Duty fraction of the 1 ms minimum pulse (`0.05` of the cycle).
pub const PWM_MIN_ON_FRACTION: i64 = 2 * AXIS_ONE;

/// Duty fraction of the 1.5 ms neutral pulse (`0.075` of the cycle).
pub const PWM_CENTER_ON_FRACTION: i64 = 3 * AXIS_ONE;

/// Duty fraction of the 2 ms maximum pulse (`0.10` of the cycle).
pub const PWM_MAX_ON_FRACTION: i64 = 4 * AXIS_ONE;

/// A drive command: throttle runs from `-1` (full reverse) to `1` (full
/// forward), direction from `-1` (full left) to `1` (full right).
#[derive(Clone, Copy, Debug, PartialEq, Eq, Structural)]
pub struct LocomotionCommand {
    pub throttle: AxisValue,
    pub direction: AxisValue,
}

impl LocomotionCommand {
    /// Both axes lie within `[-1, 1]`.
    pub open spec fn is_valid(self) -> bool {
        self.throttle.is_valid() && self.direction.is_valid()
    }

    /// The throttle of the command.
    pub open spec fn spec_throttle(self) -> AxisValue {
        self.throttle
    }

    /// The direction of the command.
    pub open spec fn spec_direction(self) -> AxisValue {
        self.direction
    }

    /// Build a command.  Exactly the box `[-1, 1] x [-1, 1]` is accepted; a
    /// value outside it is a programmer error, excluded up front.
    pub fn new(throttle: AxisValue, direction: AxisValue) -> (command: LocomotionCommand)
        requires
            throttle.is_valid(),
            direction.is_valid(),
        ensures
            command.spec_throttle() == throttle,
            command.spec_direction() == direction,
            command.is_valid(),
    {
        LocomotionCommand { throttle, direction }
    }

    pub fn get_throttle(&self) -> (throttle: AxisValue)
        ensures
            throttle == self.spec_throttle(),
    {
        self.throttle
    }

    pub fn get_direction(&self) -> (direction: AxisValue)
        ensures
            direction == self.spec_direction(),
    {
        self.direction
    }
}

/// The duty fraction an axis value maps to, in scaled units: neutral sits at
/// the centre pulse, positive values shorten the pulse towards the minimum,
/// negative values lengthen it towards the maximum (reversed polarity), so
/// the mapping is `centre - (centre - min) * value` on the positive side and
/// `centre + (max - centre) * |value|` on the negative side — both equal to
/// `3 * AXIS_ONE - value`.
pub open spec fn spec_locomotion_duty(value: int) -> int {
    3 * AXIS_ONE - value
}

/// Map an axis value to its PWM duty fraction.
pub fn locomotion_value_to_pwm_on_percentage(value: AxisValue) -> (fraction: PwmFraction)
    requires
        value.is_valid(),
    ensures
        fraction.scaled == spec_locomotion_duty(value.scaled as int),
        fraction.is_valid(),
        PWM_MIN_ON_FRACTION <= fraction.scaled <= PWM_MAX_ON_FRACTION,
{
    if value.scaled == 0 {
        PwmFraction { scaled: PWM_CENTER_ON_FRACTION }
    } else if value.scaled > 0 {
        PwmFraction { scaled: PWM_CENTER_ON_FRACTION - value.scaled }
    } else {
        PwmFraction { scaled: PWM_CENTER_ON_FRACTION + (-value.scaled) }
    }
}

/// The duty mapping hits the three calibration points exactly and is
/// strictly decreasing in the axis value.
pub proof fn lemma_locomotion_duty_calibration(first: int, second: int)
    ensures
        spec_locomotion_duty(0) == PWM_CENTER_ON_FRACTION,
        spec_locomotion_duty(AXIS_ONE as int) == PWM_MIN_ON_FRACTION,
        spec_locomotion_duty(-(AXIS_ONE as int)) == PWM_MAX_ON_FRACTION,
        first < second ==> spec_locomotion_duty(first) > spec_locomotion_duty(second),
{
}

/// The register writes that carry out one command: throttle channel first,
/// then steering, each programmed with its axis duty fraction.
pub open spec fn spec_execute_command_writes(command: LocomotionCommand) -> Seq<RegisterWrite> {
    spec_set_pwm_writes(
        PCA9685_THROTTLE_CHANNEL,
        0,
        spec_off_count(spec_locomotion_duty(command.spec_throttle().scaled as int)) as u16,
    ) + spec_set_pwm_writes(
        PCA9685_STEERING_CHANNEL,
        0,
        spec_off_count(spec_locomotion_duty(command.spec_direction().scaled as int)) as u16,
    )
}

/// Compute the register writes for one command.
pub fn execute_command_writes(command: LocomotionCommand) -> (writes: Vec<RegisterWrite>)
    requires
        command.is_valid(),
    ensures
        writes@ == spec_execute_command_writes(command),
{
    let throttle_fraction = locomotion_value_to_pwm_on_percentage(command.get_throttle());
    let direction_fraction = locomotion_value_to_pwm_on_percentage(command.get_direction());
    let mut writes = set_pwm_on_percentage(PCA9685_THROTTLE_CHANNEL, throttle_fraction);
    let mut steering = set_pwm_on_percentage(PCA9685_STEERING_CHANNEL, direction_fraction);
    writes.append(&mut steering);
    proof {
        assert(writes@ =~= spec_execute_command_writes(command));
    }
    writes
}

/// The write sequence that arms the ESC when the controller comes up: the
/// throttle channel is set to the neutral centre pulse, which is the ESC's
/// calibration requirement.
pub open spec fn spec_arm_esc_writes() -> Seq<RegisterWrite> {
    spec_set_pwm_writes(
        PCA9685_THROTTLE_CHANNEL,
        0,
        spec_off_count(PWM_CENTER_ON_FRACTION as int) as u16,
    )
}

/// Compute the ESC arming writes.
pub fn arm_esc_writes() -> (writes: Vec<RegisterWrite>)
    ensures
        writes@ == spec_arm_esc_writes(),
{
    set_pwm_on_percentage(PCA9685_THROTTLE_CHANNEL, PwmFraction { scaled: PWM_CENTER_ON_FRACTION })
}

/// Executing a command is stateless: equal commands always yield identical
/// register write sequences.
pub proof fn lemma_execute_command_deterministic(
    first: LocomotionCommand,
    second: LocomotionCommand,
)
    requires
        first == second,
    ensures
        spec_execute_command_writes(first) == spec_execute_command_writes(second),
{
}

} // verus!
