//! Register-level driver logic for the PCA9685 16-channel, 12-bit PWM
//! generator.
//!
//! The functions here compute the exact sequences of SMBus byte writes that
//! initialise the device and program a channel; the surrounding process
//! carries each `RegisterWrite` onto the bus and performs the one required
//! post-wake delay.

use vstd::prelude::*;

use crate::axis::AXIS_ONE;

verus! {

/// The hard-wired bus address of the PWM controller.
pub const PCA9685_BUS_ADDRESS: i32 = 0x40;

pub const REGISTER_MODE1: u8 = 0x00;
pub const REGISTER_MODE2: u8 = 0x01;
pub const REGISTER_LED0_ON_L: u8 = 0x06;
pub const REGISTER_LED0_ON_H: u8 = 0x07;
pub const REGISTER_LED0_OFF_L: u8 = 0x08;
pub const REGISTER_LED0_OFF_H: u8 = 0x09;
pub const REGISTER_PRESCALE: u8 = 0xFE;

pub const MODE2_OUTDRV_FLAG: u8 = 0x04;
pub const MODE1_ALLCALL_FLAG: u8 = 0x01;
pub const MODE1_SLEEP_FLAG: u8 = 0x10;

/// The crystal frequency the prescaler divides, in Hz.
pub const INTERNAL_OSCILLATOR_FREQUENCY: u64 = 25_000_000;

/// A failure to bring the device up: the bus could not be opened and
/// addressed, or one of the initialisation writes failed.
#[derive(Clone, Debug, PartialEq, Eq)]
pub enum SetupError {
    I2CWriteError { source: crate::i2c::WriteError },
    I2CSetupError { source: crate::i2c::SetupError },
}

impl core::convert::From<crate::i2c::WriteError> for SetupError {
    fn from(source: crate::i2c::WriteError) -> (converted: SetupError) {
        SetupError::I2CWriteError { source }
    }
}

impl vstd::std_specs::convert::FromSpecImpl<crate::i2c::WriteError> for SetupError {
    open spec fn obeys_from_spec() -> bool {
        true
    }

    open spec fn from_spec(source: crate::i2c::WriteError) -> SetupError {
        SetupError::I2CWriteError { source }
    }
}

impl core::convert::From<crate::i2c::SetupError> for SetupError {
    fn from(source: crate::i2c::SetupError) -> (converted: SetupError) {
        SetupError::I2CSetupError { source }
    }
}

impl vstd::std_specs::convert::FromSpecImpl<crate::i2c::SetupError> for SetupError {
    open spec fn obeys_from_spec() -> bool {
        true
    }

    open spec fn from_spec(source: crate::i2c::SetupError) -> SetupError {
        SetupError::I2CSetupError { source }
    }
}

/// A failure to program a channel's PWM registers.
#[derive(Clone, Debug, PartialEq, Eq)]
pub enum SetPWMError {
    I2CWriteError { source: crate::i2c::WriteError },
}

impl core::convert::From<crate::i2c::WriteError> for SetPWMError {
    fn from(source: crate::i2c::WriteError) -> (converted: SetPWMError) {
        SetPWMError::I2CWriteError { source }
    }
}

impl vstd::std_specs::convert::FromSpecImpl<crate::i2c::WriteError> for SetPWMError {
    open spec fn obeys_from_spec() -> bool {
        true
    }

    open spec fn from_spec(source: crate::i2c::WriteError) -> SetPWMError {
        SetPWMError::I2CWriteError { source }
    }
}

/// One byte written to one register of the device.
#[derive(Clone, Copy, Debug, PartialEq, Eq, Structural)]
pub struct RegisterWrite {
    pub register: u8,
    pub value: u8,
}

/// A PWM duty fraction in `[0, 1]`, stored as `scaled / PWM_FRACTION_ONE`.
/// The denominator is chosen so that every duty fraction the locomotion
/// mapping produces is exact.
#[derive(Clone, Copy, Debug, PartialEq, Eq, Structural)]
pub struct PwmFraction {
    pub scaled: i64,
}

/// The scaled value of a full duty cycle.
pub const PWM_FRACTION_ONE: i64 = 40 * AXIS_ONE;

impl PwmFraction {
    /// The fraction lies in `[0, 1]`.
    pub open spec fn is_valid(self) -> bool {
        0 <= self.scaled <= PWM_FRACTION_ONE
    }
}

/// `numerator / denominator` rounded to the nearest integer, halves rounding
/// up; for the non-negative values used here this is exactly `round`.
pub open spec fn spec_round_div(numerator: int, denominator: int) -> int
    recommends
        0 <= numerator,
        0 < denominator,
{
    (2 * numerator + denominator) / (2 * denominator)
}

/// The prescale register value for a PWM update frequency:
/// `round(25 MHz / (4096 * frequency)) - 1`.
pub open spec fn spec_prescale_value(frequency: int) -> int {
    spec_round_div(INTERNAL_OSCILLATOR_FREQUENCY as int, 4096 * frequency) - 1
}

/// Compute the prescale register value for a PWM frequency.  The device
/// accepts only values in `[0x03, 0xFF]`; a frequency outside that band is a
/// configuration bug, so it is excluded up front.
pub fn prescale_value_for_frequency(pwm_frequency: u32) -> (prescale: u8)
    requires
        pwm_frequency >= 1,
        3 <= spec_prescale_value(pwm_frequency as int) <= 255,
    ensures
        prescale as int == spec_prescale_value(pwm_frequency as int),
{
    let divider: u64 = 4096 * (pwm_frequency as u64);
    let rounded: u64 = (2 * INTERNAL_OSCILLATOR_FREQUENCY + divider) / (2 * divider);
    (rounded - 1) as u8
}

/// The prescaler for the 50 Hz servo/ESC carrier is exactly 121.
pub proof fn lemma_prescale_at_50_hz()
    ensures
        spec_prescale_value(50) == 121,
{
    assert(2 * (INTERNAL_OSCILLATOR_FREQUENCY as int) + 4096 * 50 == 50204800);
    assert(50204800int == 409600 * 122 + 233600);
    vstd::arithmetic::div_mod::lemma_div_multiples_vanish_fancy(122, 233600, 409600);
}

/// The low byte of a 16-bit register pair value.
pub open spec fn spec_low_byte(value: u16) -> u8 {
    (value % 0x100) as u8
}

/// The high byte of a 16-bit register pair value.
pub open spec fn spec_high_byte(value: u16) -> u8 {
    (value / 0x100) as u8
}

/// The four register writes that program one channel's on and off counts:
/// `LEDx_ON` then `LEDx_OFF`, low byte first.
pub open spec fn spec_set_pwm_writes(channel: u8, on: u16, off: u16) -> Seq<RegisterWrite>
    recommends
        channel < 16,
{
    seq![
        RegisterWrite {
            register: (REGISTER_LED0_ON_L + 4 * channel) as u8,
            value: spec_low_byte(on),
        },
        RegisterWrite {
            register: (REGISTER_LED0_ON_H + 4 * channel) as u8,
            value: spec_high_byte(on),
        },
        RegisterWrite {
            register: (REGISTER_LED0_OFF_L + 4 * channel) as u8,
            value: spec_low_byte(off),
        },
        RegisterWrite {
            register: (REGISTER_LED0_OFF_H + 4 * channel) as u8,
            value: spec_high_byte(off),
        },
    ]
}

/// Program one channel with explicit on and off counts.
pub fn set_pwm(channel: u8, on: u16, off: u16) -> (writes: Vec<RegisterWrite>)
    requires
        channel < 16,
    ensures
        writes@ == spec_set_pwm_writes(channel, on, off),
{
    let mut writes: Vec<RegisterWrite> = Vec::new();
    writes.push(
        RegisterWrite { register: REGISTER_LED0_ON_L + 4 * channel, value: (on % 0x100) as u8 },
    );
    writes.push(
        RegisterWrite { register: REGISTER_LED0_ON_H + 4 * channel, value: (on / 0x100) as u8 },
    );
    writes.push(
        RegisterWrite { register: REGISTER_LED0_OFF_L + 4 * channel, value: (off % 0x100) as u8 },
    );
    writes.push(
        RegisterWrite { register: REGISTER_LED0_OFF_H + 4 * channel, value: (off / 0x100) as u8 },
    );
    proof {
        assert(writes@ =~= spec_set_pwm_writes(channel, on, off));
    }
    writes
}

/// The 12-bit off count a duty fraction maps to: `round(fraction * 4095)`.
pub open spec fn spec_off_count(scaled: int) -> int {
    spec_round_div(4095 * scaled, PWM_FRACTION_ONE as int)
}

/// The off count of a valid fraction fits the device's 12-bit counter.
pub proof fn lemma_off_count_in_range(scaled: int)
    requires
        0 <= scaled <= PWM_FRACTION_ONE,
    ensures
        0 <= spec_off_count(scaled) <= 4095,
{
    let numerator = 2 * (4095 * scaled) + PWM_FRACTION_ONE;
    let denominator = 2 * (PWM_FRACTION_ONE as int);
    assert(numerator <= 8191 * (PWM_FRACTION_ONE as int));
    vstd::arithmetic::div_mod::lemma_div_pos_is_pos(numerator, denominator);
    vstd::arithmetic::div_mod::lemma_div_is_ordered(
        numerator,
        8191 * (PWM_FRACTION_ONE as int),
        denominator,
    );
    assert(8191 * (PWM_FRACTION_ONE as int) / denominator == 4095) by {
        assert(8191 * (PWM_FRACTION_ONE as int) == denominator * 4095 + PWM_FRACTION_ONE);
        vstd::arithmetic::div_mod::lemma_div_multiples_vanish_fancy(
            4095,
            PWM_FRACTION_ONE as int,
            denominator,
        );
    }
}

/// Program one channel to be high for the given fraction of each cycle: the
/// on count is zero and the off count is the rounded 12-bit fraction.
pub fn set_pwm_on_percentage(channel: u8, fraction: PwmFraction) -> (writes: Vec<RegisterWrite>)
    requires
        channel < 16,
        fraction.is_valid(),
    ensures
        writes@ == spec_set_pwm_writes(
            channel,
            0,
            spec_off_count(fraction.scaled as int) as u16,
        ),
{
    proof {
        lemma_off_count_in_range(fraction.scaled as int);
    }
    let numerator: i64 = 2 * (4095 * fraction.scaled) + PWM_FRACTION_ONE;
    let off = (numerator / (2 * PWM_FRACTION_ONE)) as u16;
    set_pwm(channel, 0, off)
}

/// The initialisation write sequence for the device at a given PWM
/// frequency: reset MODE1 with the sleep bit (the prescaler is writable only
/// while asleep), set totem-pole output, program the prescaler, then wake.
/// The caller must wait at least 500 microseconds after the final write
/// before programming any PWM output.
pub open spec fn spec_init_writes(frequency: int) -> Seq<RegisterWrite> {
    seq![
        RegisterWrite { register: REGISTER_MODE1, value: MODE1_ALLCALL_FLAG | MODE1_SLEEP_FLAG },
        RegisterWrite { register: REGISTER_MODE2, value: MODE2_OUTDRV_FLAG },
        RegisterWrite { register: REGISTER_PRESCALE, value: spec_prescale_value(frequency) as u8 },
        RegisterWrite { register: REGISTER_MODE1, value: MODE1_ALLCALL_FLAG },
    ]
}

/// Compute the initialisation write sequence for a PWM frequency.
pub fn pca9685_init_writes(pwm_frequency: u32) -> (writes: Vec<RegisterWrite>)
    requires
        pwm_frequency >= 1,
        3 <= spec_prescale_value(pwm_frequency as int) <= 255,
    ensures
        writes@ == spec_init_writes(pwm_frequency as int),
{
    let prescale = prescale_value_for_frequency(pwm_frequency);
    let mut writes: Vec<RegisterWrite> = Vec::new();
    writes.push(
        RegisterWrite { register: REGISTER_MODE1, value: MODE1_ALLCALL_FLAG | MODE1_SLEEP_FLAG },
    );
    writes.push(RegisterWrite { register: REGISTER_MODE2, value: MODE2_OUTDRV_FLAG });
    writes.push(RegisterWrite { register: REGISTER_PRESCALE, value: prescale });
    writes.push(RegisterWrite { register: REGISTER_MODE1, value: MODE1_ALLCALL_FLAG });
    proof {
        assert(writes@ =~= spec_init_writes(pwm_frequency as int));
    }
    writes
}

/// Programming a channel is stateless: equal channels and fractions always
/// yield identical register write sequences.
pub proof fn lemma_set_pwm_writes_deterministic(
    first_channel: u8,
    first_fraction: PwmFraction,
    second_channel: u8,
    second_fraction: PwmFraction,
)
    requires
        first_channel == second_channel,
        first_fraction == second_fraction,
    ensures
        spec_set_pwm_writes(
            first_channel,
            0,
            spec_off_count(first_fraction.scaled as int) as u16,
        ) == spec_set_pwm_writes(
            second_channel,
            0,
            spec_off_count(second_fraction.scaled as int) as u16,
        ),
{
}

} // verus!
