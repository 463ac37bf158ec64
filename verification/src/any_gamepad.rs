//! The orchestrator binding the detector to one open gamepad: it decides
//! which device to try next, adopts a freshly opened reader, runs the
//! decoder over each batch of raw input events, and turns a read error into
//! a synthesised `Disconnected` event while dropping the reader.
//!
//! Opening the device file and reading from it are the surrounding process's
//! work; every decision in between is made here.

use vstd::prelude::*;

use crate::detection::GamepadDetector;
use crate::detection::spec_rotate_once;
use crate::folder_monitor::FolderEvent;
use crate::gamepad::Gamepad;
use crate::gamepad::GamepadEvent;
use crate::gamepad::InputEvent;
use crate::gamepad::Button;
use crate::gamepad::DpadAxis;
use crate::gamepad::Stick;
use crate::gamepad::StickAxis;
use crate::gamepad::Trigger;
use crate::gamepad::spec_run_machine;
use crate::gamepad::spec_step_output;
use crate::gamepad::lemma_stick_norm_properties;
use crate::gamepad::lemma_trigger_norm_properties;

verus! {

/// A controller event as seen past the orchestrator: either a decoded event
/// of the open gamepad, or the synthesised mark that the gamepad went away.
#[derive(Clone, Copy, Debug, PartialEq, Eq, Structural)]
pub enum AnyGamepadEvent {
    ButtonPressed(Button),
    StickAdjusted(Stick, StickAxis, crate::axis::AxisValue),
    TriggerAdjusted(Trigger, crate::axis::AxisValue),
    DpadAdjusted(DpadAxis, crate::axis::AxisValue),
    Disconnected,
}

/// The orchestrator event a decoded gamepad event maps to.
pub open spec fn spec_any_event_from(event: GamepadEvent) -> AnyGamepadEvent {
    match event {
        GamepadEvent::ButtonPressed(button) => AnyGamepadEvent::ButtonPressed(button),
        GamepadEvent::StickAdjusted(stick, axis, value) => AnyGamepadEvent::StickAdjusted(
            stick,
            axis,
            value,
        ),
        GamepadEvent::TriggerAdjusted(trigger, value) => AnyGamepadEvent::TriggerAdjusted(
            trigger,
            value,
        ),
        GamepadEvent::DpadAdjusted(axis, value) => AnyGamepadEvent::DpadAdjusted(axis, value),
    }
}

impl core::convert::From<GamepadEvent> for AnyGamepadEvent {
    fn from(event: GamepadEvent) -> (converted: AnyGamepadEvent) {
        match event {
            GamepadEvent::ButtonPressed(button) => AnyGamepadEvent::ButtonPressed(button),
            GamepadEvent::StickAdjusted(stick, axis, value) => AnyGamepadEvent::StickAdjusted(
                stick,
                axis,
                value,
            ),
            GamepadEvent::TriggerAdjusted(trigger, value) => AnyGamepadEvent::TriggerAdjusted(
                trigger,
                value,
            ),
            GamepadEvent::DpadAdjusted(axis, value) => AnyGamepadEvent::DpadAdjusted(axis, value),
        }
    }
}

impl vstd::std_specs::convert::FromSpecImpl<GamepadEvent> for AnyGamepadEvent {
    open spec fn obeys_from_spec() -> bool {
        true
    }

    open spec fn from_spec(event: GamepadEvent) -> AnyGamepadEvent {
        spec_any_event_from(event)
    }
}

/// Well-formed event values: sticks and d-pads in `[-1, 1]`, triggers in
/// `[0, 1]`.
pub open spec fn spec_any_event_values_valid(event: AnyGamepadEvent) -> bool {
    match event {
        AnyGamepadEvent::StickAdjusted(_, _, value) => value.is_valid(),
        AnyGamepadEvent::TriggerAdjusted(_, value) => value.is_valid_non_negative(),
        AnyGamepadEvent::DpadAdjusted(_, value) => value.is_valid(),
        _ => true,
    }
}

/// Every event the decoder emits carries well-formed values.
pub proof fn lemma_decoded_values_valid(recovering: bool, events: Seq<InputEvent>)
    ensures
        forall|j: int|
            0 <= j < spec_run_machine(recovering, events).1.len()
                ==> spec_any_event_values_valid(
                spec_any_event_from(#[trigger] spec_run_machine(recovering, events).1[j]),
            ),
    decreases events.len(),
{
    reveal_with_fuel(spec_run_machine, 2);
    if events.len() > 0 {
        let first = events[0];
        lemma_decoded_values_valid(
            crate::gamepad::spec_step_state(recovering, first),
            events.drop_first(),
        );
        assert forall|j: int|
            0 <= j < spec_step_output(recovering, first).len()
                implies spec_any_event_values_valid(
            spec_any_event_from(#[trigger] spec_step_output(recovering, first)[j]),
        ) by {
            lemma_stick_norm_properties(first.value as int);
            lemma_trigger_norm_properties(first.value as int);
        }
        assert(forall|j: int|
            0 <= j < spec_run_machine(recovering, events).1.len()
                ==> #[trigger] spec_run_machine(recovering, events).1[j] == (if j
                < spec_step_output(recovering, first).len() {
                spec_step_output(recovering, first)[j]
            } else {
                spec_run_machine(
                    crate::gamepad::spec_step_state(recovering, first),
                    events.drop_first(),
                ).1[j - spec_step_output(recovering, first).len()]
            }));
    }
}

/// The orchestrator: the detector plus at most one open gamepad decoder.
pub struct AnyGamepad {
    pub detector: GamepadDetector,
    pub current_gamepad: Option<Gamepad>,
}

impl AnyGamepad {
    pub open spec fn wf(&self) -> bool {
        self.detector.wf()
    }

    /// Bind the orchestrator to a detector; no gamepad is open yet.
    pub fn new(detector: GamepadDetector) -> (orchestrator: AnyGamepad)
        requires
            detector.wf(),
        ensures
            orchestrator.detector == detector,
            orchestrator.current_gamepad is None,
            orchestrator.wf(),
    {
        AnyGamepad { detector, current_gamepad: None }
    }

    /// Fold folder events into the detector; the open gamepad, if any, is
    /// untouched.
    pub fn process_detector_updates(&mut self, events: &Vec<FolderEvent>)
        requires
            old(self).wf(),
        ensures
            final(self).detector@ == crate::detection::spec_apply_folder_events(
                old(self).detector@,
                events.deep_view(),
            ),
            final(self).current_gamepad == old(self).current_gamepad,
            final(self).wf(),
    {
        self.detector.process_updates(events);
    }

    /// The device path to try opening this tick: rotates the detector queue
    /// and yields its front, but only while no gamepad is open.
    pub fn device_to_try(&mut self) -> (device: Option<Vec<u8>>)
        requires
            old(self).wf(),
        ensures
            final(self).current_gamepad == old(self).current_gamepad,
            final(self).wf(),
            old(self).current_gamepad is Some ==> device is None && *final(self) == *old(self),
            old(self).current_gamepad is None ==> final(self).detector@ == spec_rotate_once(
                old(self).detector@,
            ),
            old(self).current_gamepad is None ==> (device is Some <==> old(
                self,
            ).detector@.len() > 0),
            device matches Some(path) ==> path@ == spec_rotate_once(old(self).detector@)[0],
    {
        if self.current_gamepad.is_some() {
            return None;
        }
        self.detector.next_gamepad_device()
    }

    /// Adopt a freshly opened gamepad; its decoder starts outside the
    /// recovery state.  On an open failure the caller simply does not adopt:
    /// the queue rotates to another candidate on the next tick.
    pub fn adopt_gamepad(&mut self)
        requires
            old(self).wf(),
        ensures
            final(self).detector == old(self).detector,
            final(self).current_gamepad matches Some(gamepad)
                && !gamepad.recovering_from_dropped,
            final(self).wf(),
    {
        self.current_gamepad = Some(Gamepad::new());
    }

    /// Whether a gamepad is currently open.
    pub fn has_gamepad(&self) -> (open: bool)
        ensures
            open == self.current_gamepad is Some,
    {
        self.current_gamepad.is_some()
    }

    /// Decode one batch of raw input events of the open gamepad into
    /// orchestrator events.
    pub fn process_gamepad_events(&mut self, events: &Vec<InputEvent>) -> (decoded: Vec<
        AnyGamepadEvent,
    >)
        requires
            old(self).wf(),
            old(self).current_gamepad is Some,
        ensures
            final(self).detector == old(self).detector,
            final(self).wf(),
            final(self).current_gamepad matches Some(gamepad)
                && gamepad.recovering_from_dropped == spec_run_machine(
                old(self).current_gamepad->0.recovering_from_dropped,
                events@,
            ).0,
            decoded@ == spec_run_machine(
                old(self).current_gamepad->0.recovering_from_dropped,
                events@,
            ).1.map_values(|event: GamepadEvent| spec_any_event_from(event)),
            forall|j: int|
                0 <= j < decoded@.len() ==> spec_any_event_values_valid(#[trigger] decoded@[j]),
    {
        let mut gamepad = match self.current_gamepad {
            Some(gamepad) => gamepad,
            None => Gamepad::new(),  // unreachable: a gamepad is open
        };
        let ghost initial: bool = gamepad.recovering_from_dropped;
        let raw = gamepad.process_events(events);
        self.current_gamepad = Some(gamepad);
        let mut decoded: Vec<AnyGamepadEvent> = Vec::new();
        let mut index: usize = 0;
        let ghost run_output: Seq<GamepadEvent> = spec_run_machine(initial, events@).1;
        while index < raw.len()
            invariant
                index <= raw.len(),
                raw@ == run_output,
                decoded@ == run_output.take(index as int).map_values(
                    |event: GamepadEvent| spec_any_event_from(event),
                ),
            decreases raw.len() - index,
        {
            decoded.push(AnyGamepadEvent::from(raw[index]));
            proof {
                assert(run_output.take(index as int + 1).map_values(
                    |event: GamepadEvent| spec_any_event_from(event),
                ) =~= run_output.take(index as int).map_values(
                    |event: GamepadEvent| spec_any_event_from(event),
                ).push(spec_any_event_from(run_output[index as int])));
            }
            index = index + 1;
        }
        proof {
            assert(run_output.take(run_output.len() as int) =~= run_output);
            lemma_decoded_values_valid(initial, events@);
        }
        decoded
    }

    /// Handle a failed read: the gamepad is dropped (the error may well be
    /// an intentional unplug) and a `Disconnected` event is synthesised for
    /// the consumer.
    pub fn handle_read_error(&mut self) -> (event: AnyGamepadEvent)
        requires
            old(self).wf(),
        ensures
            final(self).detector == old(self).detector,
            final(self).current_gamepad is None,
            final(self).wf(),
            event == AnyGamepadEvent::Disconnected,
    {
        self.current_gamepad = None;
        AnyGamepadEvent::Disconnected
    }
}

} // verus!
