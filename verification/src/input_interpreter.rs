//! The input interpreter: folds the orchestrator's event stream into a
//! three-field control-axis snapshot and derives the drive command.
//!
//! Only the left stick's horizontal axis and the two triggers steer the
//! vehicle; all other events are accepted and discarded.  A `Disconnected`
//! event resets the snapshot to zero, so the same tick already yields a
//! neutral command — the safe stop.

use vstd::prelude::*;

use crate::any_gamepad::AnyGamepadEvent;
use crate::any_gamepad::spec_any_event_values_valid;
use crate::axis::AxisValue;
use crate::gamepad::Stick;
use crate::gamepad::StickAxis;
use crate::gamepad::Trigger;
use crate::locomotion::LocomotionCommand;

verus! {

/// The control-axis snapshot: everything the drive command is derived from.
#[derive(Clone, Copy, Debug, PartialEq, Eq, Structural)]
pub struct GamepadState {
    pub right_trigger: AxisValue,
    pub left_trigger: AxisValue,
    pub left_stick_horizontal: AxisValue,
}

impl GamepadState {
    /// Triggers sit in `[0, 1]`, the stick axis in `[-1, 1]`.
    pub open spec fn is_valid(self) -> bool {
        &&& self.right_trigger.is_valid_non_negative()
        &&& self.left_trigger.is_valid_non_negative()
        &&& self.left_stick_horizontal.is_valid()
    }

    /// The all-zero snapshot.
    pub open spec fn spec_zero() -> GamepadState {
        GamepadState {
            right_trigger: AxisValue { scaled: 0 },
            left_trigger: AxisValue { scaled: 0 },
            left_stick_horizontal: AxisValue { scaled: 0 },
        }
    }

    /// A fresh snapshot: everything at rest.
    pub fn new() -> (state: GamepadState)
        ensures
            state == GamepadState::spec_zero(),
    {
        GamepadState {
            right_trigger: AxisValue::zero(),
            left_trigger: AxisValue::zero(),
            left_stick_horizontal: AxisValue::zero(),
        }
    }
}

/// The snapshot after one event: the tracked fields follow their events,
/// `Disconnected` resets everything, and all other events are discarded.
pub open spec fn spec_apply_any_event(state: GamepadState, event: AnyGamepadEvent) -> GamepadState {
    match event {
        AnyGamepadEvent::StickAdjusted(stick, axis, value) => {
            if stick == Stick::Left && axis == StickAxis::Horizontal {
                GamepadState { left_stick_horizontal: value, ..state }
            } else {
                state
            }
        },
        AnyGamepadEvent::TriggerAdjusted(trigger, value) => {
            match trigger {
                Trigger::Left => GamepadState { left_trigger: value, ..state },
                Trigger::Right => GamepadState { right_trigger: value, ..state },
            }
        },
        AnyGamepadEvent::Disconnected => GamepadState::spec_zero(),
        _ => state,
    }
}

/// The snapshot after a whole batch of events, first to last.
pub open spec fn spec_apply_any_events(state: GamepadState, events: Seq<AnyGamepadEvent>) -> GamepadState
    decreases events.len(),
{
    if events.len() == 0 {
        state
    } else {
        spec_apply_any_events(spec_apply_any_event(state, events[0]), events.drop_first())
    }
}

/// The drive command a snapshot yields: the throttle is the right trigger
/// minus the left trigger, the direction is the left stick's horizontal
/// deflection.
pub open spec fn spec_command_for_state(state: GamepadState) -> LocomotionCommand {
    LocomotionCommand {
        throttle: AxisValue {
            scaled: (state.right_trigger.scaled - state.left_trigger.scaled) as i64,
        },
        direction: state.left_stick_horizontal,
    }
}

/// A well-formed event keeps the snapshot well formed.
pub proof fn lemma_apply_event_preserves_validity(state: GamepadState, event: AnyGamepadEvent)
    requires
        state.is_valid(),
        spec_any_event_values_valid(event),
    ensures
        spec_apply_any_event(state, event).is_valid(),
{
}

/// The interpreter: the snapshot folded from everything seen so far.
pub struct GamepadInputInterpreter {
    pub state: GamepadState,
}

impl GamepadInputInterpreter {
    pub open spec fn wf(&self) -> bool {
        self.state.is_valid()
    }

    /// A fresh interpreter with an all-zero snapshot.
    pub fn new() -> (interpreter: GamepadInputInterpreter)
        ensures
            interpreter.state == GamepadState::spec_zero(),
            interpreter.wf(),
    {
        GamepadInputInterpreter { state: GamepadState::new() }
    }

    /// Fold one tick's events into the snapshot and return the drive
    /// command it yields.
    pub fn process_input(&mut self, events: &Vec<AnyGamepadEvent>) -> (command: LocomotionCommand)
        requires
            old(self).wf(),
            forall|i: int|
                0 <= i < events@.len() ==> spec_any_event_values_valid(#[trigger] events@[i]),
        ensures
            final(self).state == spec_apply_any_events(old(self).state, events@),
            final(self).wf(),
            command == spec_command_for_state(final(self).state),
            command.is_valid(),
    {
        let ghost initial: GamepadState = self.state;
        let mut index: usize = 0;
        proof {
            assert(events@.skip(0) =~= events@);
        }
        while index < events.len()
            invariant
                index <= events.len(),
                self.state.is_valid(),
                forall|i: int|
                    0 <= i < events@.len() ==> spec_any_event_values_valid(#[trigger] events@[i]),
                spec_apply_any_events(initial, events@) == spec_apply_any_events(
                    self.state,
                    events@.skip(index as int),
                ),
            decreases events.len() - index,
        {
            let ghost remaining: Seq<AnyGamepadEvent> = events@.skip(index as int);
            proof {
                assert(remaining[0] == events@[index as int]);
                assert(remaining.drop_first() =~= events@.skip(index as int + 1));
                lemma_apply_event_preserves_validity(self.state, events@[index as int]);
            }
            match &events[index] {
                AnyGamepadEvent::StickAdjusted(stick, axis, value) => {
                    if *stick == Stick::Left && *axis == StickAxis::Horizontal {
                        self.state.left_stick_horizontal = *value;
                    }
                },
                AnyGamepadEvent::TriggerAdjusted(trigger, value) => {
                    match trigger {
                        Trigger::Left => {
                            self.state.left_trigger = *value;
                        },
                        Trigger::Right => {
                            self.state.right_trigger = *value;
                        },
                    }
                },
                AnyGamepadEvent::Disconnected => {
                    self.state = GamepadState::new();
                },
                _ => {},
            }
            index = index + 1;
        }
        proof {
            assert(events@.skip(events@.len() as int) =~= Seq::<AnyGamepadEvent>::empty());
        }
        LocomotionCommand::new(
            AxisValue { scaled: self.state.right_trigger.scaled - self.state.left_trigger.scaled },
            self.state.left_stick_horizontal,
        )
    }
}

} // verus!
