//! Decoding of the Linux evdev input-event stream for one hard-wired
//! controller profile, with recovery from kernel-side buffer overflows.
//!
//! The surrounding process reads raw `input_event` records from the device
//! file and hands them here as plain `InputEvent` values; everything from that
//! point on — the recovery state machine and the per-event decoding and
//! normalisation — is verified against the specification functions below.

use vstd::prelude::*;

use crate::axis::AxisValue;
use crate::axis::AXIS_ONE;
use crate::axis::STICK_STEP_NEGATIVE;
use crate::axis::STICK_STEP_NON_NEGATIVE;
use crate::axis::TRIGGER_STEP;

verus! {

// Event types of interest.
pub const EV_SYN: u16 = 0x00;
pub const EV_KEY: u16 = 0x01;
pub const EV_ABS: u16 = 0x03;

// EV_SYN event codes of interest.
pub const SYN_REPORT: u16 = 0;
pub const SYN_DROPPED: u16 = 3;

// EV_KEY event codes of interest.
pub const BTN_A: u16 = 0x130;
pub const BTN_B: u16 = 0x131;
pub const BTN_X: u16 = 0x133;
pub const BTN_Y: u16 = 0x134;
pub const BTN_TL: u16 = 0x136;
pub const BTN_TR: u16 = 0x137;
pub const BTN_SELECT: u16 = 0x13a;
pub const BTN_START: u16 = 0x13b;
pub const BTN_MODE: u16 = 0x13c;
pub const BTN_THUMBL: u16 = 0x13d;
pub const BTN_THUMBR: u16 = 0x13e;

// EV_ABS event codes of interest.
pub const ABS_X: u16 = 0x00;
pub const ABS_Y: u16 = 0x01;
pub const ABS_Z: u16 = 0x02;
pub const ABS_RX: u16 = 0x03;
pub const ABS_RY: u16 = 0x04;
pub const ABS_RZ: u16 = 0x05;
pub const ABS_HAT0X: u16 = 0x10;
pub const ABS_HAT0Y: u16 = 0x11;

/// One kernel input event, stripped of its timestamp, which the decoder
/// ignores.
#[derive(Clone, Copy, Debug, PartialEq, Eq, Structural)]
pub struct InputEvent {
    pub event_type: u16,
    pub code: u16,
    pub value: i32,
}

#[derive(Clone, Copy, Debug, PartialEq, Eq, Structural)]
pub enum Stick {
    Left,
    Right,
}

#[derive(Clone, Copy, Debug, PartialEq, Eq, Structural)]
pub enum StickAxis {
    Vertical,
    Horizontal,
}

#[derive(Clone, Copy, Debug, PartialEq, Eq, Structural)]
pub enum Trigger {
    Left,
    Right,
}

#[derive(Clone, Copy, Debug, PartialEq, Eq, Structural)]
pub enum DpadAxis {
    Vertical,
    Horizontal,
}

#[derive(Clone, Copy, Debug, PartialEq, Eq, Structural)]
pub enum Button {
    A,
    B,
    X,
    Y,
    TL,
    TR,
    SELECT,
    START,
    MODE,
    THUMBL,
    THUMBR,
}

/// A decoded, normalised controller event.
#[derive(Clone, Copy, Debug, PartialEq, Eq, Structural)]
pub enum GamepadEvent {
    ButtonPressed(Button),
    StickAdjusted(Stick, StickAxis, AxisValue),
    TriggerAdjusted(Trigger, AxisValue),
    DpadAdjusted(DpadAxis, AxisValue),
}

/// The deadzone: values with `|v| < 3/20` collapse to exactly zero.
pub open spec fn spec_deadzone(scaled: int) -> int {
    let magnitude = if scaled < 0 {
        -scaled
    } else {
        scaled
    };
    if 20 * magnitude < 3 * AXIS_ONE {
        0
    } else {
        scaled
    }
}

/// Normalised stick value for a raw reading: `raw / 32768` on the negative
/// side, `raw / 32767` on the non-negative side (so that both extremes map
/// exactly to full deflection), saturated, with the deadzone applied.
pub open spec fn spec_stick_norm(raw: int) -> int {
    if raw <= -32768 {
        -(AXIS_ONE as int)
    } else if raw >= 32767 {
        AXIS_ONE as int
    } else if raw < 0 {
        spec_deadzone(raw * STICK_STEP_NEGATIVE)
    } else {
        spec_deadzone(raw * STICK_STEP_NON_NEGATIVE)
    }
}

/// Normalised trigger value for a raw reading: `raw / 1023`, saturated into
/// `[0, 1]`, with the deadzone applied.
pub open spec fn spec_trigger_norm(raw: int) -> int {
    if raw <= 0 {
        0
    } else if raw >= 1023 {
        AXIS_ONE as int
    } else {
        spec_deadzone(raw * TRIGGER_STEP)
    }
}

/// Normalised d-pad value: `-1`, `0` or `1`, without a deadzone.
pub open spec fn spec_dpad_norm(raw: int) -> int {
    if raw <= -1 {
        -(AXIS_ONE as int)
    } else if raw >= 1 {
        AXIS_ONE as int
    } else {
        0
    }
}

/// The button a key code maps to, if any.
pub open spec fn spec_button_for_code(code: u16) -> Option<Button> {
    if code == BTN_A {
        Some(Button::A)
    } else if code == BTN_B {
        Some(Button::B)
    } else if code == BTN_X {
        Some(Button::X)
    } else if code == BTN_Y {
        Some(Button::Y)
    } else if code == BTN_TL {
        Some(Button::TL)
    } else if code == BTN_TR {
        Some(Button::TR)
    } else if code == BTN_SELECT {
        Some(Button::SELECT)
    } else if code == BTN_START {
        Some(Button::START)
    } else if code == BTN_MODE {
        Some(Button::MODE)
    } else if code == BTN_THUMBL {
        Some(Button::THUMBL)
    } else if code == BTN_THUMBR {
        Some(Button::THUMBR)
    } else {
        None
    }
}

/// Decoding of a key event: a press event on a known button code, and only
/// the key-down transition, yields `ButtonPressed`.
pub open spec fn spec_key_event(code: u16, value: i32) -> Option<GamepadEvent> {
    if value != 1 {
        None
    } else {
        match spec_button_for_code(code) {
            Some(button) => Some(GamepadEvent::ButtonPressed(button)),
            None => None,
        }
    }
}

/// Decoding of an absolute-axis event according to the controller profile.
pub open spec fn spec_absolute_event(code: u16, value: i32) -> Option<GamepadEvent> {
    if code == ABS_X {
        Some(
            GamepadEvent::StickAdjusted(
                Stick::Left,
                StickAxis::Horizontal,
                AxisValue { scaled: spec_stick_norm(value as int) as i64 },
            ),
        )
    } else if code == ABS_Y {
        Some(
            GamepadEvent::StickAdjusted(
                Stick::Left,
                StickAxis::Vertical,
                AxisValue { scaled: spec_stick_norm(value as int) as i64 },
            ),
        )
    } else if code == ABS_RX {
        Some(
            GamepadEvent::StickAdjusted(
                Stick::Right,
                StickAxis::Horizontal,
                AxisValue { scaled: spec_stick_norm(value as int) as i64 },
            ),
        )
    } else if code == ABS_RY {
        Some(
            GamepadEvent::StickAdjusted(
                Stick::Right,
                StickAxis::Vertical,
                AxisValue { scaled: spec_stick_norm(value as int) as i64 },
            ),
        )
    } else if code == ABS_Z {
        Some(
            GamepadEvent::TriggerAdjusted(
                Trigger::Left,
                AxisValue { scaled: spec_trigger_norm(value as int) as i64 },
            ),
        )
    } else if code == ABS_RZ {
        Some(
            GamepadEvent::TriggerAdjusted(
                Trigger::Right,
                AxisValue { scaled: spec_trigger_norm(value as int) as i64 },
            ),
        )
    } else if code == ABS_HAT0X {
        Some(
            GamepadEvent::DpadAdjusted(
                DpadAxis::Horizontal,
                AxisValue { scaled: spec_dpad_norm(value as int) as i64 },
            ),
        )
    } else if code == ABS_HAT0Y {
        Some(
            GamepadEvent::DpadAdjusted(
                DpadAxis::Vertical,
                AxisValue { scaled: spec_dpad_norm(value as int) as i64 },
            ),
        )
    } else {
        None
    }
}

/// Decoding of an arbitrary input event outside the recovery state: only key
/// and absolute-axis events are recognised.
pub open spec fn spec_decode_event(event: InputEvent) -> Option<GamepadEvent> {
    if event.event_type == EV_KEY {
        spec_key_event(event.code, event.value)
    } else if event.event_type == EV_ABS {
        spec_absolute_event(event.code, event.value)
    } else {
        None
    }
}

pub open spec fn spec_is_syn_report(event: InputEvent) -> bool {
    event.event_type == EV_SYN && event.code == SYN_REPORT
}

pub open spec fn spec_is_syn_dropped(event: InputEvent) -> bool {
    event.event_type == EV_SYN && event.code == SYN_DROPPED
}

/// Recovery state after one event: `SYN_DROPPED` enters recovery, the next
/// `SYN_REPORT` frame boundary leaves it.
pub open spec fn spec_step_state(recovering: bool, event: InputEvent) -> bool {
    if recovering {
        !spec_is_syn_report(event)
    } else {
        spec_is_syn_dropped(event)
    }
}

/// Events emitted for one input event: nothing while recovering, nothing for
/// the `SYN_DROPPED` marker itself, and otherwise whatever the event decodes
/// to.
pub open spec fn spec_step_output(recovering: bool, event: InputEvent) -> Seq<GamepadEvent> {
    if recovering {
        Seq::empty()
    } else if spec_is_syn_dropped(event) {
        Seq::empty()
    } else {
        match spec_decode_event(event) {
            Some(decoded) => seq![decoded],
            None => Seq::empty(),
        }
    }
}

/// The recovery state machine run over a whole batch of input events:
/// the final recovery state and the concatenation of all emitted events.
pub open spec fn spec_run_machine(recovering: bool, events: Seq<InputEvent>) -> (bool, Seq<
    GamepadEvent,
>)
    decreases events.len(),
{
    if events.len() == 0 {
        (recovering, Seq::empty())
    } else {
        let first = events[0];
        let rest = spec_run_machine(spec_step_state(recovering, first), events.drop_first());
        (rest.0, spec_step_output(recovering, first) + rest.1)
    }
}

/// Running the machine on a batch extended by one event appends that event's
/// step to the run over the original batch.
pub proof fn lemma_run_machine_snoc(recovering: bool, events: Seq<InputEvent>, event: InputEvent)
    ensures
        spec_run_machine(recovering, events.push(event)).0 == spec_step_state(
            spec_run_machine(recovering, events).0,
            event,
        ),
        spec_run_machine(recovering, events.push(event)).1 == spec_run_machine(
            recovering,
            events,
        ).1 + spec_step_output(spec_run_machine(recovering, events).0, event),
    decreases events.len(),
{
    reveal_with_fuel(spec_run_machine, 3);
    if events.len() == 0 {
        assert(events.push(event).drop_first() =~= Seq::<InputEvent>::empty());
        assert(spec_run_machine(recovering, events.push(event)).1 =~= spec_run_machine(
            recovering,
            events,
        ).1 + spec_step_output(spec_run_machine(recovering, events).0, event));
    } else {
        let stepped = spec_step_state(recovering, events[0]);
        lemma_run_machine_snoc(stepped, events.drop_first(), event);
        assert(events.push(event).drop_first() =~= events.drop_first().push(event));
        assert(spec_run_machine(recovering, events.push(event)).1 =~= spec_run_machine(
            recovering,
            events,
        ).1 + spec_step_output(spec_run_machine(recovering, events).0, event));
    }
}

/// Every normalised stick value lies in `[-1, 1]`, values inside the
/// deadzone are exactly zero, and the raw extremes map exactly to full
/// deflection.
pub proof fn lemma_stick_norm_properties(raw: int)
    ensures
        -(AXIS_ONE as int) <= spec_stick_norm(raw) <= AXIS_ONE as int,
        20 * (if spec_stick_norm(raw) < 0 {
            -spec_stick_norm(raw)
        } else {
            spec_stick_norm(raw)
        }) < 3 * AXIS_ONE ==> spec_stick_norm(raw) == 0,
        raw <= -32768 ==> spec_stick_norm(raw) == -(AXIS_ONE as int),
        raw >= 32767 ==> spec_stick_norm(raw) == AXIS_ONE as int,
{
}

/// Every normalised trigger value lies in `[0, 1]`, values inside the
/// deadzone are exactly zero, and the endpoints saturate exactly.
pub proof fn lemma_trigger_norm_properties(raw: int)
    ensures
        0 <= spec_trigger_norm(raw) <= AXIS_ONE as int,
        20 * spec_trigger_norm(raw) < 3 * AXIS_ONE ==> spec_trigger_norm(raw) == 0,
        raw <= 0 ==> spec_trigger_norm(raw) == 0,
        raw >= 1023 ==> spec_trigger_norm(raw) == AXIS_ONE as int,
{
}

/// While the decoder is recovering from a kernel-side drop, a batch without
/// a `SYN_REPORT` frame boundary emits nothing and stays in recovery.
pub proof fn lemma_recovering_emits_nothing(events: Seq<InputEvent>)
    requires
        forall|i: int| 0 <= i < events.len() ==> !spec_is_syn_report(#[trigger] events[i]),
    ensures
        spec_run_machine(true, events).0 == true,
        spec_run_machine(true, events).1 == Seq::<GamepadEvent>::empty(),
    decreases events.len(),
{
    reveal_with_fuel(spec_run_machine, 2);
    if events.len() > 0 {
        assert(!spec_is_syn_report(events[0]));
        assert(forall|i: int|
            0 <= i < events.drop_first().len() ==> !spec_is_syn_report(
                #[trigger] events.drop_first()[i],
            ));
        lemma_recovering_emits_nothing(events.drop_first());
        assert(spec_run_machine(true, events).1 =~= Seq::<GamepadEvent>::empty());
    }
}

/// A recovering decoder swallows everything up to and including the next
/// `SYN_REPORT`, and then continues as a normal run over the remainder.
pub proof fn lemma_recovering_until_report(
    noise: Seq<InputEvent>,
    report: InputEvent,
    tail: Seq<InputEvent>,
)
    requires
        forall|i: int| 0 <= i < noise.len() ==> !spec_is_syn_report(#[trigger] noise[i]),
        spec_is_syn_report(report),
    ensures
        spec_run_machine(true, noise + seq![report] + tail) == spec_run_machine(false, tail),
    decreases noise.len(),
{
    reveal_with_fuel(spec_run_machine, 2);
    if noise.len() == 0 {
        assert((noise + seq![report] + tail)[0] == report);
        assert((noise + seq![report] + tail).drop_first() =~= tail);
        assert(spec_run_machine(true, noise + seq![report] + tail).1 =~= spec_run_machine(
            false,
            tail,
        ).1);
    } else {
        assert(!spec_is_syn_report(noise[0]));
        assert(forall|i: int|
            0 <= i < noise.drop_first().len() ==> !spec_is_syn_report(
                #[trigger] noise.drop_first()[i],
            ));
        lemma_recovering_until_report(noise.drop_first(), report, tail);
        assert((noise + seq![report] + tail)[0] == noise[0]);
        assert((noise + seq![report] + tail).drop_first() =~= noise.drop_first() + seq![report]
            + tail);
        assert(spec_run_machine(true, noise + seq![report] + tail).1 =~= spec_run_machine(
            false,
            tail,
        ).1);
    }
}

/// Drop recovery round trip: after `SYN_DROPPED`, arbitrary reportless noise
/// and the closing `SYN_REPORT`, a key-down on the south button is the only
/// event the whole batch emits.
pub proof fn lemma_drop_recovery_round_trip(noise: Seq<InputEvent>)
    requires
        forall|i: int| 0 <= i < noise.len() ==> !spec_is_syn_report(#[trigger] noise[i]),
    ensures
        ({
            let dropped = InputEvent { event_type: EV_SYN, code: SYN_DROPPED, value: 0 };
            let report = InputEvent { event_type: EV_SYN, code: SYN_REPORT, value: 0 };
            let key_down = InputEvent { event_type: EV_KEY, code: BTN_A, value: 1 };
            spec_run_machine(false, seq![dropped] + noise + seq![report] + seq![key_down]).1
                =~= seq![GamepadEvent::ButtonPressed(Button::A)]
        }),
{
    reveal_with_fuel(spec_run_machine, 3);
    let dropped = InputEvent { event_type: EV_SYN, code: SYN_DROPPED, value: 0 };
    let report = InputEvent { event_type: EV_SYN, code: SYN_REPORT, value: 0 };
    let key_down = InputEvent { event_type: EV_KEY, code: BTN_A, value: 1 };
    let whole = seq![dropped] + noise + seq![report] + seq![key_down];
    assert(whole[0] == dropped);
    assert(whole.drop_first() =~= noise + seq![report] + seq![key_down]);
    lemma_recovering_until_report(noise, report, seq![key_down]);
    assert(seq![key_down].drop_first() =~= Seq::<InputEvent>::empty());
    assert(spec_run_machine(false, seq![key_down]).1 =~= seq![
        GamepadEvent::ButtonPressed(Button::A),
    ]);
}

/// The decoder state for one open gamepad device.
#[derive(Clone, Copy, Debug, PartialEq, Eq, Structural)]
pub struct Gamepad {
    pub recovering_from_dropped: bool,
}

impl Gamepad {
    /// A freshly opened gamepad starts outside the recovery state.
    pub fn new() -> (gamepad: Gamepad)
        ensures
            !gamepad.recovering_from_dropped,
    {
        Gamepad { recovering_from_dropped: false }
    }

    /// Decode one batch of raw input events, advancing the recovery state and
    /// returning the recognised events in order.
    pub fn process_events(&mut self, events: &Vec<InputEvent>) -> (decoded: Vec<GamepadEvent>)
        ensures
            final(self).recovering_from_dropped == spec_run_machine(
                old(self).recovering_from_dropped,
                events@,
            ).0,
            decoded@ == spec_run_machine(old(self).recovering_from_dropped, events@).1,
    {
        let ghost initial: bool = self.recovering_from_dropped;
        let mut decoded: Vec<GamepadEvent> = Vec::new();
        let mut index: usize = 0;
        while index < events.len()
            invariant
                index <= events.len(),
                self.recovering_from_dropped == spec_run_machine(
                    initial,
                    events@.take(index as int),
                ).0,
                decoded@ == spec_run_machine(initial, events@.take(index as int)).1,
            decreases events.len() - index,
        {
            let event = events[index];
            proof {
                lemma_run_machine_snoc(initial, events@.take(index as int), event);
                assert(events@.take(index as int + 1) =~= events@.take(index as int).push(event));
            }
            if self.recovering_from_dropped {
                if event.event_type == EV_SYN && event.code == SYN_REPORT {
                    self.recovering_from_dropped = false;
                }
            } else {
                if event.event_type == EV_SYN && event.code == SYN_DROPPED {
                    self.recovering_from_dropped = true;
                } else {
                    let maybe_event = if event.event_type == EV_KEY {
                        process_key_event(event.code, event.value)
                    } else if event.event_type == EV_ABS {
                        process_absolute_event(event.code, event.value)
                    } else {
                        None
                    };
                    if let Some(gamepad_event) = maybe_event {
                        decoded.push(gamepad_event);
                    }
                }
            }
            index = index + 1;
        }
        proof {
            assert(events@.take(events@.len() as int) =~= events@);
        }
        decoded
    }
}

/// Decode a key event: `ButtonPressed` exactly on a key-down transition of a
/// known button code.
pub fn process_key_event(code: u16, value: i32) -> (decoded: Option<GamepadEvent>)
    ensures
        decoded == spec_key_event(code, value),
{
    if value != 1 {
        return None;
    }
    match code {
        BTN_A => Some(GamepadEvent::ButtonPressed(Button::A)),
        BTN_B => Some(GamepadEvent::ButtonPressed(Button::B)),
        BTN_X => Some(GamepadEvent::ButtonPressed(Button::X)),
        BTN_Y => Some(GamepadEvent::ButtonPressed(Button::Y)),
        BTN_TL => Some(GamepadEvent::ButtonPressed(Button::TL)),
        BTN_TR => Some(GamepadEvent::ButtonPressed(Button::TR)),
        BTN_SELECT => Some(GamepadEvent::ButtonPressed(Button::SELECT)),
        BTN_START => Some(GamepadEvent::ButtonPressed(Button::START)),
        BTN_MODE => Some(GamepadEvent::ButtonPressed(Button::MODE)),
        BTN_THUMBL => Some(GamepadEvent::ButtonPressed(Button::THUMBL)),
        BTN_THUMBR => Some(GamepadEvent::ButtonPressed(Button::THUMBR)),
        _ => None,
    }
}

/// Decode an absolute-axis event into a normalised stick, trigger or d-pad
/// event.
pub fn process_absolute_event(code: u16, value: i32) -> (decoded: Option<GamepadEvent>)
    ensures
        decoded == spec_absolute_event(code, value),
{
    match code {
        ABS_X => Some(create_stick_event(Stick::Left, StickAxis::Horizontal, value)),
        ABS_Y => Some(create_stick_event(Stick::Left, StickAxis::Vertical, value)),
        ABS_RX => Some(create_stick_event(Stick::Right, StickAxis::Horizontal, value)),
        ABS_RY => Some(create_stick_event(Stick::Right, StickAxis::Vertical, value)),
        ABS_Z => Some(create_trigger_event(Trigger::Left, value)),
        ABS_RZ => Some(create_trigger_event(Trigger::Right, value)),
        ABS_HAT0X => Some(create_dpad_event(DpadAxis::Horizontal, value)),
        ABS_HAT0Y => Some(create_dpad_event(DpadAxis::Vertical, value)),
        _ => None,
    }
}

/// Build a stick event with the normalised, deadzone-filtered value.
pub fn create_stick_event(stick: Stick, axis: StickAxis, value: i32) -> (event: GamepadEvent)
    ensures
        (event == GamepadEvent::StickAdjusted(
            stick,
            axis,
            AxisValue { scaled: spec_stick_norm(value as int) as i64 },
        )),
{
    let normalised = if value <= -32768 {
        AxisValue::negative_one()
    } else if value >= 32767 {
        AxisValue::one()
    } else if value < 0 {
        apply_deadzone(AxisValue { scaled: (value as i64) * STICK_STEP_NEGATIVE })
    } else {
        apply_deadzone(AxisValue { scaled: (value as i64) * STICK_STEP_NON_NEGATIVE })
    };
    GamepadEvent::StickAdjusted(stick, axis, normalised)
}

/// Build a trigger event with the normalised, deadzone-filtered value.
pub fn create_trigger_event(trigger: Trigger, value: i32) -> (event: GamepadEvent)
    ensures
        (event == GamepadEvent::TriggerAdjusted(
            trigger,
            AxisValue { scaled: spec_trigger_norm(value as int) as i64 },
        )),
{
    let normalised = if value <= 0 {
        AxisValue::zero()
    } else if value >= 1023 {
        AxisValue::one()
    } else {
        apply_deadzone(AxisValue { scaled: (value as i64) * TRIGGER_STEP })
    };
    GamepadEvent::TriggerAdjusted(trigger, normalised)
}

/// Build a d-pad event; d-pad values are exact and skip the deadzone.
pub fn create_dpad_event(axis: DpadAxis, value: i32) -> (event: GamepadEvent)
    ensures
        (event == GamepadEvent::DpadAdjusted(
            axis,
            AxisValue { scaled: spec_dpad_norm(value as int) as i64 },
        )),
{
    let normalised = if value <= -1 {
        AxisValue::negative_one()
    } else if value >= 1 {
        AxisValue::one()
    } else {
        AxisValue::zero()
    };
    GamepadEvent::DpadAdjusted(axis, normalised)
}

/// Collapse values inside the neutral band to exactly zero, suppressing
/// sensor jitter around the resting position.
pub fn apply_deadzone(value: AxisValue) -> (filtered: AxisValue)
    requires
        value.is_valid(),
    ensures
        filtered.scaled == spec_deadzone(value.scaled as int),
{
    let magnitude = if value.scaled < 0 {
        -value.scaled
    } else {
        value.scaled
    };
    if 20 * magnitude < 3 * AXIS_ONE {
        AxisValue { scaled: 0 }
    } else {
        value
    }
}

} // verus!
