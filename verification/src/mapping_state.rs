//! The state machine that runs one mapping: its phase follows the mapping's
//! inputs, and its output sequence emits key and mouse events over time.
//!
//! Time is a count of milliseconds that never decreases; the caller passes
//! the current time to each tick, and the events of a tick come back in the
//! order in which they are to be sent.

use vstd::prelude::*;

use crate::collections::output_sequence_items;
use crate::config::{
    mode_is_macro, ComputerInput, KeyboardInput, Mapping, MappingMode, MouseInput, RukeyControl,
    MAX_COMPUTER_INPUTS,
};

verus! {

/// A keyboard key goes down or up.
#[derive(Debug, Clone, Copy, PartialEq, Eq, Structural)]
pub enum KeyboardEvent {
    Pressed(KeyboardInput),
    Released(KeyboardInput),
}

/// A mouse action starts or stops.
#[derive(Debug, Clone, Copy, PartialEq, Eq, Structural)]
pub enum MouseEvent {
    Pressed(MouseInput),
    Released(MouseInput),
}

/// An event for the keyboard or the mouse half of the USB device.
#[derive(Debug, Clone, Copy, PartialEq, Eq, Structural)]
pub enum OutputEvent {
    Keyboard(KeyboardEvent),
    Mouse(MouseEvent),
}

/// Where a mapping stands with respect to its inputs.
#[derive(Debug, Clone, Copy, PartialEq, Eq, Structural)]
pub enum MappingPhase {
    /// Initial state on construction.
    /// Waits for any held button to be released before allowing the mapping to activate.
    /// Never re-entered after leaving.
    Initial,
    /// The input is currently considered released.
    Released,
    /// The input is currently considered held since the given time.
    HeldPending { since: u64 },
    /// The input is currently considered pressed.
    Pressed,
    /// Toggle activated, waiting for physical release before accepting next toggle press.
    ToggleOnAwaitingRelease,
    /// Waiting for full release before returning to Released.
    AwaitingRelease,
    /// DoubleTap: first tap complete, awaiting second press; `since` is the time of the first press.
    DoubleTapGap { since: u64 },
    /// DoubleTap: second press, awaiting second release to fire; `since` is the time of the first press.
    DoubleTapSecondPressed { since: u64 },
}

/// Progress through a running output sequence.
#[derive(Debug, Clone, Copy, PartialEq, Eq, Structural)]
pub struct RunningOutputSequence {
    /// Index of the next output_sequence item to process.
    pub output_index: u8,
    /// Index of the first currently-held output. Items in held_from..output_index are "active".
    pub held_from: u8,
    /// Set at creation and reset each time an AfterMillis* timer expires.
    pub waiting_since: u64,
}

/// The run-time state of one mapping.
#[derive(Debug, Clone, Copy, PartialEq, Eq, Structural)]
pub struct MappingState {
    pub phase: MappingPhase,
    pub output: Option<RunningOutputSequence>,
}

/// What the phase machine does to the output sequence on a tick.
#[derive(Debug, Clone, Copy, PartialEq, Eq, Structural)]
pub enum PhaseAction {
    Nothing,
    /// Start the output sequence, unless it is already running.
    Start,
    /// Release the held outputs and end the output sequence.
    Stop,
}

/// How a pass over the output sequence ended.
#[derive(Debug, Clone, Copy, PartialEq, Eq, Structural)]
pub enum SequenceStop {
    /// Waiting on a timer, or restarted from the beginning.
    Blocked,
    /// Every item has been processed.
    Finished,
    /// The sequence switches to the given profile.
    SetProfile(u8),
}

/// The outcome of one tick of a mapping.
#[derive(Debug, Clone, Copy, PartialEq, Eq, Structural)]
pub enum MappingStep {
    /// The mapping carries on with this state.
    Continue(MappingState),
    /// The profile changes to the given index; every mapping state is now stale.
    SetProfile(u8),
}

/// Whether at least `threshold` milliseconds have passed between `since` and `now`.
pub open spec fn reached(since: u64, now: u64, threshold: u16) -> bool {
    now - since >= threshold
}

/// The next phase, and what happens to the output sequence, when the inputs of a
/// mapping in mode `mode` are (or are not) all `pressed` at time `now`.
pub open spec fn phase_transition(mode: MappingMode, phase: MappingPhase, pressed: bool, now: u64) -> (
    MappingPhase,
    PhaseAction,
) {
    match mode {
        MappingMode::OnPress => match (phase, pressed) {
            (MappingPhase::Initial, false) => (MappingPhase::Released, PhaseAction::Nothing),
            (MappingPhase::Released, true) => (MappingPhase::Pressed, PhaseAction::Start),
            (MappingPhase::Pressed, false) => (MappingPhase::Released, PhaseAction::Stop),
            _ => (phase, PhaseAction::Nothing),
        },
        MappingMode::OnHold { hold_ms } => match (phase, pressed) {
            (MappingPhase::Initial, false) => (MappingPhase::Released, PhaseAction::Nothing),
            (MappingPhase::Released, true) => (
                MappingPhase::HeldPending { since: now },
                PhaseAction::Nothing,
            ),
            (MappingPhase::HeldPending { since }, true) => if reached(since, now, hold_ms) {
                (MappingPhase::Pressed, PhaseAction::Start)
            } else {
                (phase, PhaseAction::Nothing)
            },
            (MappingPhase::HeldPending { .. }, false) => (
                MappingPhase::Released,
                PhaseAction::Nothing,
            ),
            (MappingPhase::Pressed, false) => (MappingPhase::Released, PhaseAction::Stop),
            _ => (phase, PhaseAction::Nothing),
        },
        MappingMode::Toggle => match (phase, pressed) {
            (MappingPhase::Initial, false) => (MappingPhase::Released, PhaseAction::Nothing),
            (MappingPhase::Released, true) => (
                MappingPhase::ToggleOnAwaitingRelease,
                PhaseAction::Start,
            ),
            (MappingPhase::ToggleOnAwaitingRelease, false) => (
                MappingPhase::Pressed,
                PhaseAction::Nothing,
            ),
            (MappingPhase::Pressed, true) => (MappingPhase::AwaitingRelease, PhaseAction::Stop),
            (MappingPhase::AwaitingRelease, false) => (
                MappingPhase::Released,
                PhaseAction::Nothing,
            ),
            _ => (phase, PhaseAction::Nothing),
        },
        MappingMode::MacroOnPress => match (phase, pressed) {
            (MappingPhase::Initial, false) => (MappingPhase::Released, PhaseAction::Nothing),
            (MappingPhase::Released, true) => (MappingPhase::Pressed, PhaseAction::Start),
            (MappingPhase::Pressed, false) => (MappingPhase::Released, PhaseAction::Nothing),
            _ => (phase, PhaseAction::Nothing),
        },
        MappingMode::MacroOnRelease => match (phase, pressed) {
            (MappingPhase::Initial, false) => (MappingPhase::Released, PhaseAction::Nothing),
            (MappingPhase::Released, true) => (MappingPhase::Pressed, PhaseAction::Nothing),
            (MappingPhase::Pressed, false) => (MappingPhase::Released, PhaseAction::Start),
            _ => (phase, PhaseAction::Nothing),
        },
        MappingMode::MacroOnTap { tap_ms } => match (phase, pressed) {
            (MappingPhase::Initial, false) => (MappingPhase::Released, PhaseAction::Nothing),
            (MappingPhase::Released, true) => (
                MappingPhase::HeldPending { since: now },
                PhaseAction::Nothing,
            ),
            (MappingPhase::HeldPending { since }, true) => if reached(since, now, tap_ms) {
                (MappingPhase::AwaitingRelease, PhaseAction::Nothing)
            } else {
                (phase, PhaseAction::Nothing)
            },
            (MappingPhase::HeldPending { since }, false) => if reached(since, now, tap_ms) {
                (MappingPhase::Released, PhaseAction::Nothing)
            } else {
                (MappingPhase::Released, PhaseAction::Start)
            },
            (MappingPhase::AwaitingRelease, false) => (
                MappingPhase::Released,
                PhaseAction::Nothing,
            ),
            _ => (phase, PhaseAction::Nothing),
        },
        MappingMode::MacroOnDoubleTap { tap_ms } => match (phase, pressed) {
            (MappingPhase::Initial, false) => (MappingPhase::Released, PhaseAction::Nothing),
            (MappingPhase::Released, true) => (
                MappingPhase::HeldPending { since: now },
                PhaseAction::Nothing,
            ),
            (MappingPhase::HeldPending { since }, true) => if reached(since, now, tap_ms) {
                (MappingPhase::AwaitingRelease, PhaseAction::Nothing)
            } else {
                (phase, PhaseAction::Nothing)
            },
            (MappingPhase::HeldPending { since }, false) => if reached(since, now, tap_ms) {
                (MappingPhase::Released, PhaseAction::Nothing)
            } else {
                (MappingPhase::DoubleTapGap { since }, PhaseAction::Nothing)
            },
            (MappingPhase::DoubleTapGap { since }, false) => if reached(since, now, tap_ms) {
                (MappingPhase::Released, PhaseAction::Nothing)
            } else {
                (phase, PhaseAction::Nothing)
            },
            (MappingPhase::DoubleTapGap { since }, true) => if reached(since, now, tap_ms) {
                (MappingPhase::HeldPending { since: now }, PhaseAction::Nothing)
            } else {
                (MappingPhase::DoubleTapSecondPressed { since }, PhaseAction::Nothing)
            },
            (MappingPhase::DoubleTapSecondPressed { since }, true) => if reached(
                since,
                now,
                tap_ms,
            ) {
                (MappingPhase::AwaitingRelease, PhaseAction::Nothing)
            } else {
                (phase, PhaseAction::Nothing)
            },
            (MappingPhase::DoubleTapSecondPressed { since }, false) => if reached(
                since,
                now,
                tap_ms,
            ) {
                (MappingPhase::Released, PhaseAction::Nothing)
            } else {
                (MappingPhase::Released, PhaseAction::Start)
            },
            (MappingPhase::AwaitingRelease, false) => (
                MappingPhase::Released,
                PhaseAction::Nothing,
            ),
            _ => (phase, PhaseAction::Nothing),
        },
        MappingMode::MacroOnHold { hold_ms } => match (phase, pressed) {
            (MappingPhase::Initial, false) => (MappingPhase::Released, PhaseAction::Nothing),
            (MappingPhase::Released, true) => (
                MappingPhase::HeldPending { since: now },
                PhaseAction::Nothing,
            ),
            (MappingPhase::HeldPending { since }, true) => if reached(since, now, hold_ms) {
                (MappingPhase::AwaitingRelease, PhaseAction::Start)
            } else {
                (phase, PhaseAction::Nothing)
            },
            (MappingPhase::HeldPending { .. }, false) => (
                MappingPhase::Released,
                PhaseAction::Nothing,
            ),
            (MappingPhase::AwaitingRelease, false) => (
                MappingPhase::Released,
                PhaseAction::Nothing,
            ),
            _ => (phase, PhaseAction::Nothing),
        },
    }
}

/// The event that sends an output down.
pub open spec fn press_events(c: ComputerInput) -> Seq<OutputEvent> {
    match c {
        ComputerInput::Keyboard(k) => seq![OutputEvent::Keyboard(KeyboardEvent::Pressed(k))],
        ComputerInput::Mouse(m) => seq![OutputEvent::Mouse(MouseEvent::Pressed(m))],
        ComputerInput::Control(_) => seq![],
    }
}

/// The event that lets an output go again; controls have none.
pub open spec fn release_event(c: ComputerInput) -> Seq<OutputEvent> {
    match c {
        ComputerInput::Keyboard(k) => seq![OutputEvent::Keyboard(KeyboardEvent::Released(k))],
        ComputerInput::Mouse(m) => seq![OutputEvent::Mouse(MouseEvent::Released(m))],
        ComputerInput::Control(_) => seq![],
    }
}

/// The release events of `items`, in order.
pub open spec fn release_events(items: Seq<ComputerInput>) -> Seq<OutputEvent>
    decreases items.len(),
{
    if items.len() == 0 {
        seq![]
    } else {
        release_events(items.drop_last()) + release_event(items.last())
    }
}

/// The outputs of `outs` that a running sequence currently holds down.
pub open spec fn held_outputs(o: RunningOutputSequence, outs: Seq<ComputerInput>) -> Seq<
    ComputerInput,
> {
    let end = if o.output_index <= outs.len() {
        o.output_index as int
    } else {
        outs.len() as int
    };
    outs.subrange(o.held_from as int, end)
}

/// A sequence state is consistent with outputs `outs` at time `now`.
pub open spec fn running_ok(o: RunningOutputSequence, outs: Seq<ComputerInput>, now: u64) -> bool {
    &&& o.held_from <= o.output_index <= outs.len()
    &&& o.waiting_since <= now
}

/// Processes the output sequence from `o` on, at time `now`: outputs are pressed in turn
/// until a timer blocks, the sequence restarts or switches profile, or its end is reached.
/// Gives the new sequence state, the events in order, and how the pass ended.
pub open spec fn run_outputs(o: RunningOutputSequence, outs: Seq<ComputerInput>, now: u64) -> (
    RunningOutputSequence,
    Seq<OutputEvent>,
    SequenceStop,
)
    decreases outs.len() - o.output_index,
    when outs.len() <= MAX_COMPUTER_INPUTS
{
    if o.output_index >= outs.len() {
        (o, seq![], SequenceStop::Finished)
    } else {
        let item = outs[o.output_index as int];
        let next = RunningOutputSequence {
            output_index: (o.output_index + 1) as u8,
            held_from: o.held_from,
            waiting_since: o.waiting_since,
        };
        match item {
            ComputerInput::Control(RukeyControl::AfterMillisHold(ms)) => if !reached(
                o.waiting_since,
                now,
                ms,
            ) {
                (o, seq![], SequenceStop::Blocked)
            } else {
                run_outputs(
                    RunningOutputSequence {
                        output_index: (o.output_index + 1) as u8,
                        held_from: o.held_from,
                        waiting_since: now,
                    },
                    outs,
                    now,
                )
            },
            ComputerInput::Control(RukeyControl::AfterMillisRelease(ms)) => if !reached(
                o.waiting_since,
                now,
                ms,
            ) {
                (o, seq![], SequenceStop::Blocked)
            } else {
                let rest = run_outputs(
                    RunningOutputSequence {
                        output_index: (o.output_index + 1) as u8,
                        held_from: (o.output_index + 1) as u8,
                        waiting_since: now,
                    },
                    outs,
                    now,
                );
                (rest.0, release_events(held_outputs(o, outs)) + rest.1, rest.2)
            },
            ComputerInput::Control(RukeyControl::Restart) => (
                RunningOutputSequence { output_index: 0, held_from: 0, waiting_since: now },
                release_events(held_outputs(o, outs)),
                SequenceStop::Blocked,
            ),
            ComputerInput::Control(RukeyControl::SetProfile(p)) => (
                o,
                release_events(held_outputs(o, outs)),
                SequenceStop::SetProfile(p),
            ),
            _ => {
                let rest = run_outputs(next, outs, now);
                (rest.0, press_events(item) + rest.1, rest.2)
            },
        }
    }
}

/// Whether the last output is an `AfterMillisHold` or `AfterMillisRelease`.
pub open spec fn ends_with_wait(outs: Seq<ComputerInput>) -> bool {
    outs.len() > 0 && match outs.last() {
        ComputerInput::Control(RukeyControl::AfterMillisHold(_)) => true,
        ComputerInput::Control(RukeyControl::AfterMillisRelease(_)) => true,
        _ => false,
    }
}

/// A macro whose sequence has run to its end terminates: at once when the
/// last output is a wait, otherwise once more than 50 ms have passed since
/// the sequence last waited or started.
pub open spec fn macro_ends(mode: MappingMode, o: RunningOutputSequence, outs: Seq<ComputerInput>, now: u64) -> bool {
    &&& mode_is_macro(mode)
    &&& outs.len() > 0
    &&& (ends_with_wait(outs) || now - o.waiting_since > 50)
}

impl MappingState {
    /// A consistent state for a mapping with outputs `outs` at time `now`: the
    /// running sequence is within the outputs and no recorded time is later than `now`.
    pub open spec fn wf(self, outs: Seq<ComputerInput>, now: u64) -> bool {
        &&& match self.output {
            Some(o) => running_ok(o, outs, now),
            None => true,
        }
        &&& match self.phase {
            MappingPhase::HeldPending { since } => since <= now,
            MappingPhase::DoubleTapGap { since } => since <= now,
            MappingPhase::DoubleTapSecondPressed { since } => since <= now,
            _ => true,
        }
    }

    /// The state after the phase machine's tick, and the events it sends.
    pub open spec fn phase_tick(
        self,
        mode: MappingMode,
        outs: Seq<ComputerInput>,
        pressed: bool,
        now: u64,
    ) -> (MappingState, Seq<OutputEvent>) {
        let (phase, action) = phase_transition(mode, self.phase, pressed, now);
        match action {
            PhaseAction::Nothing => (MappingState { phase, output: self.output }, seq![]),
            PhaseAction::Start => (
                MappingState {
                    phase,
                    output: if self.output is None {
                        Some(
                            RunningOutputSequence {
                                output_index: 0,
                                held_from: 0,
                                waiting_since: now,
                            },
                        )
                    } else {
                        self.output
                    },
                },
                seq![],
            ),
            PhaseAction::Stop => match self.output {
                Some(o) => (
                    MappingState { phase, output: None },
                    release_events(held_outputs(o, outs)),
                ),
                None => (MappingState { phase, output: None }, seq![]),
            },
        }
    }

    /// The outcome of the output sequence's tick, and the events it sends.
    pub open spec fn sequence_tick(self, mode: MappingMode, outs: Seq<ComputerInput>, now: u64) -> (
        MappingStep,
        Seq<OutputEvent>,
    ) {
        match self.output {
            None => (MappingStep::Continue(self), seq![]),
            Some(o) => {
                let run = run_outputs(o, outs, now);
                match run.2 {
                    SequenceStop::SetProfile(p) => (MappingStep::SetProfile(p), run.1),
                    SequenceStop::Blocked => (
                        MappingStep::Continue(MappingState { phase: self.phase, output: Some(run.0) }),
                        run.1,
                    ),
                    SequenceStop::Finished => if macro_ends(mode, run.0, outs, now) {
                        (
                            MappingStep::Continue(MappingState { phase: self.phase, output: None }),
                            run.1 + release_events(held_outputs(run.0, outs)),
                        )
                    } else {
                        (
                            MappingStep::Continue(
                                MappingState { phase: self.phase, output: Some(run.0) },
                            ),
                            run.1,
                        )
                    },
                }
            },
        }
    }

    /// One tick of the mapping: the phase machine, then the output sequence.
    pub open spec fn tick(
        self,
        mode: MappingMode,
        outs: Seq<ComputerInput>,
        pressed: bool,
        now: u64,
    ) -> (MappingStep, Seq<OutputEvent>) {
        let (s, e1) = self.phase_tick(mode, outs, pressed, now);
        let (step, e2) = s.sequence_tick(mode, outs, now);
        (step, e1 + e2)
    }
}

/// Whether at least `threshold` milliseconds have passed between `since` and `now`.
fn has_reached(since: u64, now: u64, threshold: u16) -> (r: bool)
    requires
        since <= now,
    ensures
        r == reached(since, now, threshold),
{
    now - since >= threshold as u64
}

/// The phase machine of every mode, as a table from phase and input to next
/// phase and action on the output sequence.
pub fn next_phase(mode: MappingMode, phase: MappingPhase, pressed: bool, now: u64) -> (r: (
    MappingPhase,
    PhaseAction,
))
    requires
        (MappingState { phase, output: None }).wf(Seq::empty(), now),
    ensures
        r == phase_transition(mode, phase, pressed, now),
{
    match mode {
        MappingMode::OnPress => match (phase, pressed) {
            (MappingPhase::Initial, false) => (MappingPhase::Released, PhaseAction::Nothing),
            (MappingPhase::Released, true) => (MappingPhase::Pressed, PhaseAction::Start),
            (MappingPhase::Pressed, false) => (MappingPhase::Released, PhaseAction::Stop),
            _ => (phase, PhaseAction::Nothing),
        },
        MappingMode::OnHold { hold_ms } => match (phase, pressed) {
            (MappingPhase::Initial, false) => (MappingPhase::Released, PhaseAction::Nothing),
            (MappingPhase::Released, true) => (
                MappingPhase::HeldPending { since: now },
                PhaseAction::Nothing,
            ),
            (MappingPhase::HeldPending { since }, true) => if has_reached(since, now, hold_ms) {
                (MappingPhase::Pressed, PhaseAction::Start)
            } else {
                (phase, PhaseAction::Nothing)
            },
            (MappingPhase::HeldPending { .. }, false) => (
                MappingPhase::Released,
                PhaseAction::Nothing,
            ),
            (MappingPhase::Pressed, false) => (MappingPhase::Released, PhaseAction::Stop),
            _ => (phase, PhaseAction::Nothing),
        },
        MappingMode::Toggle => match (phase, pressed) {
            (MappingPhase::Initial, false) => (MappingPhase::Released, PhaseAction::Nothing),
            (MappingPhase::Released, true) => (
                MappingPhase::ToggleOnAwaitingRelease,
                PhaseAction::Start,
            ),
            (MappingPhase::ToggleOnAwaitingRelease, false) => (
                MappingPhase::Pressed,
                PhaseAction::Nothing,
            ),
            (MappingPhase::Pressed, true) => (MappingPhase::AwaitingRelease, PhaseAction::Stop),
            (MappingPhase::AwaitingRelease, false) => (
                MappingPhase::Released,
                PhaseAction::Nothing,
            ),
            _ => (phase, PhaseAction::Nothing),
        },
        MappingMode::MacroOnPress => match (phase, pressed) {
            (MappingPhase::Initial, false) => (MappingPhase::Released, PhaseAction::Nothing),
            (MappingPhase::Released, true) => (MappingPhase::Pressed, PhaseAction::Start),
            (MappingPhase::Pressed, false) => (MappingPhase::Released, PhaseAction::Nothing),
            _ => (phase, PhaseAction::Nothing),
        },
        MappingMode::MacroOnRelease => match (phase, pressed) {
            (MappingPhase::Initial, false) => (MappingPhase::Released, PhaseAction::Nothing),
            (MappingPhase::Released, true) => (MappingPhase::Pressed, PhaseAction::Nothing),
            (MappingPhase::Pressed, false) => (MappingPhase::Released, PhaseAction::Start),
            _ => (phase, PhaseAction::Nothing),
        },
        MappingMode::MacroOnTap { tap_ms } => match (phase, pressed) {
            (MappingPhase::Initial, false) => (MappingPhase::Released, PhaseAction::Nothing),
            (MappingPhase::Released, true) => (
                MappingPhase::HeldPending { since: now },
                PhaseAction::Nothing,
            ),
            (MappingPhase::HeldPending { since }, true) => if has_reached(since, now, tap_ms) {
                (MappingPhase::AwaitingRelease, PhaseAction::Nothing)
            } else {
                (phase, PhaseAction::Nothing)
            },
            (MappingPhase::HeldPending { since }, false) => if has_reached(since, now, tap_ms) {
                (MappingPhase::Released, PhaseAction::Nothing)
            } else {
                (MappingPhase::Released, PhaseAction::Start)
            },
            (MappingPhase::AwaitingRelease, false) => (
                MappingPhase::Released,
                PhaseAction::Nothing,
            ),
            _ => (phase, PhaseAction::Nothing),
        },
        MappingMode::MacroOnDoubleTap { tap_ms } => match (phase, pressed) {
            (MappingPhase::Initial, false) => (MappingPhase::Released, PhaseAction::Nothing),
            (MappingPhase::Released, true) => (
                MappingPhase::HeldPending { since: now },
                PhaseAction::Nothing,
            ),
            (MappingPhase::HeldPending { since }, true) => if has_reached(since, now, tap_ms) {
                (MappingPhase::AwaitingRelease, PhaseAction::Nothing)
            } else {
                (phase, PhaseAction::Nothing)
            },
            (MappingPhase::HeldPending { since }, false) => if has_reached(since, now, tap_ms) {
                (MappingPhase::Released, PhaseAction::Nothing)
            } else {
                (MappingPhase::DoubleTapGap { since }, PhaseAction::Nothing)
            },
            (MappingPhase::DoubleTapGap { since }, false) => if has_reached(since, now, tap_ms) {
                (MappingPhase::Released, PhaseAction::Nothing)
            } else {
                (phase, PhaseAction::Nothing)
            },
            (MappingPhase::DoubleTapGap { since }, true) => if has_reached(since, now, tap_ms) {
                (MappingPhase::HeldPending { since: now }, PhaseAction::Nothing)
            } else {
                (MappingPhase::DoubleTapSecondPressed { since }, PhaseAction::Nothing)
            },
            (MappingPhase::DoubleTapSecondPressed { since }, true) => if has_reached(
                since,
                now,
                tap_ms,
            ) {
                (MappingPhase::AwaitingRelease, PhaseAction::Nothing)
            } else {
                (phase, PhaseAction::Nothing)
            },
            (MappingPhase::DoubleTapSecondPressed { since }, false) => if has_reached(
                since,
                now,
                tap_ms,
            ) {
                (MappingPhase::Released, PhaseAction::Nothing)
            } else {
                (MappingPhase::Released, PhaseAction::Start)
            },
            (MappingPhase::AwaitingRelease, false) => (
                MappingPhase::Released,
                PhaseAction::Nothing,
            ),
            _ => (phase, PhaseAction::Nothing),
        },
        MappingMode::MacroOnHold { hold_ms } => match (phase, pressed) {
            (MappingPhase::Initial, false) => (MappingPhase::Released, PhaseAction::Nothing),
            (MappingPhase::Released, true) => (
                MappingPhase::HeldPending { since: now },
                PhaseAction::Nothing,
            ),
            (MappingPhase::HeldPending { since }, true) => if has_reached(since, now, hold_ms) {
                (MappingPhase::AwaitingRelease, PhaseAction::Start)
            } else {
                (phase, PhaseAction::Nothing)
            },
            (MappingPhase::HeldPending { .. }, false) => (
                MappingPhase::Released,
                PhaseAction::Nothing,
            ),
            (MappingPhase::AwaitingRelease, false) => (
                MappingPhase::Released,
                PhaseAction::Nothing,
            ),
            _ => (phase, PhaseAction::Nothing),
        },
    }
}

/// Appends the release events of the outputs that `o` holds down.
pub(crate) fn release_held(o: RunningOutputSequence, outs: &[ComputerInput], events: &mut Vec<OutputEvent>)
    requires
        o.held_from <= o.output_index,
        o.held_from <= outs@.len(),
    ensures
        final(events)@ == old(events)@ + release_events(held_outputs(o, outs@)),
{
    let start = o.held_from as usize;
    let end = if (o.output_index as usize) < outs.len() {
        o.output_index as usize
    } else {
        outs.len()
    };
    let mut i = start;
    while i < end
        invariant
            start <= i <= end,
            end <= outs@.len(),
            start == o.held_from,
            end == if o.output_index <= outs@.len() { o.output_index as int } else { outs@.len() as int },
            events@ == old(events)@ + release_events(outs@.subrange(start as int, i as int)),
        decreases end - i,
    {
        let item = outs[i];
        let ghost before = outs@.subrange(start as int, i as int);
        assert(outs@.subrange(start as int, i + 1).drop_last() =~= before);
        match item {
            ComputerInput::Keyboard(k) => {
                events.push(OutputEvent::Keyboard(KeyboardEvent::Released(k)));
            },
            ComputerInput::Mouse(m) => {
                events.push(OutputEvent::Mouse(MouseEvent::Released(m)));
            },
            ComputerInput::Control(_) => {},
        }
        i += 1;
        assert(events@ =~= old(events)@ + release_events(outs@.subrange(start as int, i as int)));
    }
    assert(held_outputs(o, outs@) =~= outs@.subrange(start as int, end as int));
}

/// Whether the last output is an `AfterMillisHold` or `AfterMillisRelease`.
fn last_is_wait(outs: &[ComputerInput]) -> (r: bool)
    ensures
        r == ends_with_wait(outs@),
{
    if outs.len() == 0 {
        return false;
    }
    match outs[outs.len() - 1] {
        ComputerInput::Control(RukeyControl::AfterMillisHold(_)) => true,
        ComputerInput::Control(RukeyControl::AfterMillisRelease(_)) => true,
        _ => false,
    }
}

impl MappingState {
    /// A mapping that has not seen its inputs yet.
    pub fn new() -> (r: Self)
        ensures
            r.phase == MappingPhase::Initial,
            r.output is None,
    {
        MappingState { phase: MappingPhase::Initial, output: None }
    }

    /// Start the output_sequence; if it is still running, leave it running.
    fn start_outputs(&mut self, now: u64)
        ensures
            final(self).phase == old(self).phase,
            final(self).output == if old(self).output is None {
                Some(RunningOutputSequence { output_index: 0, held_from: 0, waiting_since: now })
            } else {
                old(self).output
            },
    {
        if self.output.is_none() {
            self.output = Some(
                RunningOutputSequence { output_index: 0, held_from: 0, waiting_since: now },
            );
        }
    }

    /// Send release events for all unreleased outputs and terminate the output_sequence,
    /// so any remaining elements in the sequence are skipped.
    fn stop_outputs(&mut self, outs: &[ComputerInput], events: &mut Vec<OutputEvent>)
        requires
            old(self).output matches Some(o) ==> o.held_from <= o.output_index && o.held_from
                <= outs@.len(),
        ensures
            final(self).phase == old(self).phase,
            final(self).output is None,
            final(events)@ == old(events)@ + match old(self).output {
                Some(o) => release_events(held_outputs(o, outs@)),
                None => seq![],
            },
    {
        match self.output {
            Some(o) => {
                release_held(o, outs, events);
                self.output = None;
            },
            None => {
                assert(events@ =~= old(events)@ + seq![]);
            },
        }
    }

    /// Progress the phase state machine.
    fn process_phase(
        &mut self,
        mode: MappingMode,
        outs: &[ComputerInput],
        all_pressed: bool,
        now: u64,
        events: &mut Vec<OutputEvent>,
    )
        requires
            old(self).wf(outs@, now),
        ensures
            *final(self) == old(self).phase_tick(mode, outs@, all_pressed, now).0,
            final(events)@ == old(events)@ + old(self).phase_tick(mode, outs@, all_pressed, now).1,
            final(self).wf(outs@, now),
    {
        let (phase, action) = next_phase(mode, self.phase, all_pressed, now);
        match action {
            PhaseAction::Nothing => {
                assert(events@ =~= old(events)@ + seq![]);
            },
            PhaseAction::Start => {
                self.start_outputs(now);
                assert(events@ =~= old(events)@ + seq![]);
            },
            PhaseAction::Stop => {
                self.stop_outputs(outs, events);
            },
        }
        self.phase = phase;
    }

    /// Process the output sequence in chunks terminated by the `AfterMillis*` controls.
    /// Returns the profile to switch to when the sequence reaches a `SetProfile`.
    fn process_output_sequence(
        &mut self,
        mode: MappingMode,
        outs: &[ComputerInput],
        now: u64,
        events: &mut Vec<OutputEvent>,
    ) -> (r: Option<u8>)
        requires
            old(self).wf(outs@, now),
            outs@.len() <= MAX_COMPUTER_INPUTS,
        ensures
            final(events)@ == old(events)@ + old(self).sequence_tick(mode, outs@, now).1,
            match old(self).sequence_tick(mode, outs@, now).0 {
                MappingStep::Continue(s) => r is None && *final(self) == s,
                MappingStep::SetProfile(p) => r == Some(p),
            },
            r is None ==> final(self).wf(outs@, now),
    {
        let o0 = match self.output {
            Some(o) => o,
            None => {
                assert(events@ =~= old(events)@ + seq![]);
                return None;
            },
        };
        let mut o = o0;
        let ghost mut produced: Seq<OutputEvent> = seq![];
        while (o.output_index as usize) < outs.len()
            invariant
                running_ok(o, outs@, now),
                outs@.len() <= MAX_COMPUTER_INPUTS,
                old(self).output == Some(o0),
                old(self).wf(outs@, now),
                self.phase == old(self).phase,
                events@ == old(events)@ + produced,
                run_outputs(o0, outs@, now) == (
                    run_outputs(o, outs@, now).0,
                    produced + run_outputs(o, outs@, now).1,
                    run_outputs(o, outs@, now).2,
                ),
            decreases outs@.len() - o.output_index,
        {
            let item = outs[o.output_index as usize];
            let ghost o_before = o;
            let ghost produced_before = produced;
            match item {
                ComputerInput::Keyboard(k) => {
                    let ev = OutputEvent::Keyboard(KeyboardEvent::Pressed(k));
                    events.push(ev);
                    proof {
                        produced = produced.push(ev);
                    }
                    o.output_index = o.output_index + 1;
                    assert(press_events(item) =~= seq![ev]);
                    assert(produced_before + (press_events(item) + run_outputs(o, outs@, now).1)
                        =~= produced + run_outputs(o, outs@, now).1);
                },
                ComputerInput::Mouse(m) => {
                    let ev = OutputEvent::Mouse(MouseEvent::Pressed(m));
                    events.push(ev);
                    proof {
                        produced = produced.push(ev);
                    }
                    o.output_index = o.output_index + 1;
                    assert(press_events(item) =~= seq![ev]);
                    assert(produced_before + (press_events(item) + run_outputs(o, outs@, now).1)
                        =~= produced + run_outputs(o, outs@, now).1);
                },
                ComputerInput::Control(RukeyControl::AfterMillisHold(ms)) => {
                    if !has_reached(o.waiting_since, now, ms) {
                        self.output = Some(o);
                        assert(produced + seq![] =~= produced);
                        return None;
                    }
                    o.waiting_since = now;
                    o.output_index = o.output_index + 1;
                },
                ComputerInput::Control(RukeyControl::AfterMillisRelease(ms)) => {
                    if !has_reached(o.waiting_since, now, ms) {
                        self.output = Some(o);
                        assert(produced + seq![] =~= produced);
                        return None;
                    }
                    let ghost released = release_events(held_outputs(o, outs@));
                    release_held(o, outs, events);
                    proof {
                        produced = produced + released;
                    }
                    o.held_from = o.output_index + 1;
                    o.waiting_since = now;
                    o.output_index = o.output_index + 1;
                    assert(produced_before + (released + run_outputs(o, outs@, now).1)
                        =~= produced + run_outputs(o, outs@, now).1);
                },
                ComputerInput::Control(RukeyControl::Restart) => {
                    release_held(o, outs, events);
                    o = RunningOutputSequence { output_index: 0, held_from: 0, waiting_since: now };
                    self.output = Some(o);
                    return None;
                },
                ComputerInput::Control(RukeyControl::SetProfile(profile)) => {
                    release_held(o, outs, events);
                    return Some(profile);
                },
            }
        }
        assert(produced + seq![] =~= produced);
        if mode.is_macro() && outs.len() > 0 && (last_is_wait(outs) || now - o.waiting_since > 50) {
            release_held(o, outs, events);
            self.output = None;
        } else {
            self.output = Some(o);
        }
        None
    }

    /// Process one tick for a single mapping: its inputs are all held or not
    /// (`all_pressed`) at time `now`. The events to send are appended to `events`.
    /// `SetProfile` means that every mapping state is now stale and the profile changes;
    /// the outputs this mapping's sequence holds are released first.
    pub fn process(self, mapping: &Mapping, all_pressed: bool, now: u64, events: &mut Vec<
        OutputEvent,
    >) -> (r: MappingStep)
        requires
            self.wf(output_sequence_items(mapping.output_sequence), now),
        ensures
            r == self.tick(mapping.mode, output_sequence_items(mapping.output_sequence), all_pressed, now).0,
            final(events)@ == old(events)@ + self.tick(
                mapping.mode,
                output_sequence_items(mapping.output_sequence),
                all_pressed,
                now,
            ).1,
            r matches MappingStep::Continue(s) ==> s.wf(output_sequence_items(mapping.output_sequence), now),
    {
        let outs = mapping.output_sequence.as_slice();
        let mut state = self;
        let ghost e0 = events@;
        // progress the phase state machine
        state.process_phase(mapping.mode, outs, all_pressed, now, events);
        let ghost e1 = events@;
        // output sequences are run independently of the phase state machine
        let r = match state.process_output_sequence(mapping.mode, outs, now, events) {
            Some(profile) => MappingStep::SetProfile(profile),
            None => MappingStep::Continue(state),
        };
        assert(events@ =~= e0 + (e1.subrange(e0.len() as int, e1.len() as int) + events@.subrange(e1.len() as int, events@.len() as int)));
        r
    }
}

/// The press events of `items`, in order.
pub open spec fn press_events_of(items: Seq<ComputerInput>) -> Seq<OutputEvent>
    decreases items.len(),
{
    if items.len() == 0 {
        seq![]
    } else {
        press_events(items[0]) + press_events_of(items.drop_first())
    }
}

/// The initial phase is never re-entered once it has been left.
pub proof fn lemma_initial_never_reentered(
    mode: MappingMode,
    phase: MappingPhase,
    pressed: bool,
    now: u64,
)
    requires
        phase != MappingPhase::Initial,
    ensures
        phase_transition(mode, phase, pressed, now).0 != MappingPhase::Initial,
{
}

/// A fresh mapping waits for its inputs to be released before it can
/// activate: while they are held it stays initial, and it never starts or
/// stops anything from the initial phase.
pub proof fn lemma_initial_waits_for_release(mode: MappingMode, pressed: bool, now: u64)
    ensures
        phase_transition(mode, MappingPhase::Initial, pressed, now).1 == PhaseAction::Nothing,
        pressed ==> phase_transition(mode, MappingPhase::Initial, pressed, now).0
            == MappingPhase::Initial,
        !pressed ==> phase_transition(mode, MappingPhase::Initial, pressed, now).0
            == MappingPhase::Released,
{
}

/// Macros run till their end: the inputs of a macro never stop its output
/// sequence, and input events while it is running leave it as it is.
pub proof fn lemma_macro_inputs_leave_running_sequence(
    s: MappingState,
    mode: MappingMode,
    outs: Seq<ComputerInput>,
    pressed: bool,
    now: u64,
)
    requires
        mode_is_macro(mode),
        s.output is Some,
    ensures
        phase_transition(mode, s.phase, pressed, now).1 != PhaseAction::Stop,
        s.phase_tick(mode, outs, pressed, now).0.output == s.output,
        s.phase_tick(mode, outs, pressed, now).1 == Seq::<OutputEvent>::empty(),
{
}

/// On press and on hold: releasing the inputs of a pressed mapping terminates
/// its output sequence and releases exactly the outputs it holds.
pub proof fn lemma_release_terminates(
    s: MappingState,
    mode: MappingMode,
    outs: Seq<ComputerInput>,
    now: u64,
)
    requires
        mode is OnPress || mode is OnHold,
        s.phase == MappingPhase::Pressed,
    ensures
        s.phase_tick(mode, outs, false, now).0 == (MappingState {
            phase: MappingPhase::Released,
            output: None,
        }),
        s.phase_tick(mode, outs, false, now).1 == match s.output {
            Some(o) => release_events(held_outputs(o, outs)),
            None => Seq::<OutputEvent>::empty(),
        },
{
}

/// Toggle: a press of a released mapping starts its output sequence, and the
/// next press after the release terminates it.
pub proof fn lemma_toggle_press_starts_and_next_press_stops(
    s: MappingState,
    outs: Seq<ComputerInput>,
    now: u64,
)
    ensures
        s.phase == MappingPhase::Released ==> {
            let t = s.phase_tick(MappingMode::Toggle, outs, true, now).0;
            t.phase == MappingPhase::ToggleOnAwaitingRelease && t.output is Some
        },
        s.phase == MappingPhase::ToggleOnAwaitingRelease ==> s.phase_tick(
            MappingMode::Toggle,
            outs,
            false,
            now,
        ).0 == (MappingState { phase: MappingPhase::Pressed, output: s.output }),
        s.phase == MappingPhase::Pressed ==> s.phase_tick(MappingMode::Toggle, outs, true, now).0
            == (MappingState { phase: MappingPhase::AwaitingRelease, output: None }),
{
}

/// On hold: a held mapping starts its output sequence exactly when the
/// inputs have been held for `hold_ms` milliseconds.
pub proof fn lemma_hold_starts_after_threshold(hold_ms: u16, since: u64, now: u64)
    requires
        since <= now,
    ensures
        phase_transition(
            MappingMode::OnHold { hold_ms },
            MappingPhase::HeldPending { since },
            true,
            now,
        ).1 == (if now - since >= hold_ms {
            PhaseAction::Start
        } else {
            PhaseAction::Nothing
        }),
{
}

/// An output sequence without controls presses every remaining output, in
/// order, within one tick and then reports its end.
pub proof fn lemma_plain_sequence_presses_everything(
    o: RunningOutputSequence,
    outs: Seq<ComputerInput>,
    now: u64,
)
    requires
        running_ok(o, outs, now),
        outs.len() <= MAX_COMPUTER_INPUTS,
        forall|i: int| o.output_index <= i < outs.len() ==> !(#[trigger] outs[i] is Control),
    ensures
        run_outputs(o, outs, now).0 == (RunningOutputSequence {
            output_index: outs.len() as u8,
            held_from: o.held_from,
            waiting_since: o.waiting_since,
        }),
        run_outputs(o, outs, now).1 == press_events_of(
            outs.subrange(o.output_index as int, outs.len() as int),
        ),
        run_outputs(o, outs, now).2 == SequenceStop::Finished,
    decreases outs.len() - o.output_index,
{
    let rest = outs.subrange(o.output_index as int, outs.len() as int);
    if o.output_index < outs.len() {
        let next = RunningOutputSequence {
            output_index: (o.output_index + 1) as u8,
            held_from: o.held_from,
            waiting_since: o.waiting_since,
        };
        assert(!(outs[o.output_index as int] is Control));
        lemma_plain_sequence_presses_everything(next, outs, now);
        assert(rest.drop_first() =~= outs.subrange(next.output_index as int, outs.len() as int));
    } else {
        assert(rest =~= Seq::<ComputerInput>::empty());
    }
}

/// In the modes without timers, one step of the phase machine under an input
/// reaches a phase that is stable under that input: a second step with the
/// same input changes nothing and sends nothing.
pub proof fn lemma_untimed_step_settles(
    s: MappingState,
    mode: MappingMode,
    outs: Seq<ComputerInput>,
    pressed: bool,
    now: u64,
    later: u64,
)
    requires
        mode is OnPress || mode is Toggle || mode is MacroOnPress || mode is MacroOnRelease,
    ensures
        ({
            let s1 = s.phase_tick(mode, outs, pressed, now).0;
            s1.phase_tick(mode, outs, pressed, later) == (s1, Seq::<OutputEvent>::empty())
        }),
{
}

/// Macro on hold: a mapping whose inputs stay held starts its macro at the
/// first tick at which they have been held for `hold_ms` milliseconds, and
/// waits until then; a mapping that was not running starts its sequence from
/// the first output.
pub proof fn lemma_macro_hold_starts_after_threshold(
    hold_ms: u16,
    since: u64,
    now: u64,
    outs: Seq<ComputerInput>,
)
    requires
        since <= now,
    ensures
        ({
            let s = MappingState { phase: MappingPhase::HeldPending { since }, output: None };
            let next = s.phase_tick(MappingMode::MacroOnHold { hold_ms }, outs, true, now);
            &&& now - since >= hold_ms ==> next.0.phase == MappingPhase::AwaitingRelease
                && next.0.output == Some(
                RunningOutputSequence { output_index: 0, held_from: 0, waiting_since: now },
            ) && next.1 == Seq::<OutputEvent>::empty()
            &&& now - since < hold_ms ==> next.0 == s && next.1 == Seq::<OutputEvent>::empty()
        }),
        phase_transition(
            MappingMode::MacroOnHold { hold_ms },
            MappingPhase::HeldPending { since },
            true,
            now,
        ) == (if now - since >= hold_ms {
            (MappingPhase::AwaitingRelease, PhaseAction::Start)
        } else {
            (MappingPhase::HeldPending { since }, PhaseAction::Nothing)
        }),
{
}

/// When each mode starts and stops its output sequence, for every phase and
/// input at a time `now` no earlier than the phase's recorded time:
/// - on press and toggle start on a press of a released mapping; on press
///   stops on the release of a pressed mapping, toggle on the next press;
/// - on hold starts once the inputs have been held for `hold_ms`, and stops
///   on release;
/// - macro on press starts on a press, macro on release on the release that
///   follows a press, macro on hold once held for `hold_ms`;
/// - macro on tap starts on a release less than `tap_ms` after the press,
///   macro on double tap on a second release less than `tap_ms` after the
///   first press;
/// - macros never stop on their inputs.
pub proof fn lemma_when_sequences_start_and_stop(mode: MappingMode, phase: MappingPhase, pressed: bool, now: u64)
    requires
        (MappingState { phase, output: None }).wf(Seq::empty(), now),
    ensures
        ({
            let action = phase_transition(mode, phase, pressed, now).1;
            match mode {
                MappingMode::OnPress => {
                    &&& (action == PhaseAction::Start) == (phase == MappingPhase::Released && pressed)
                    &&& (action == PhaseAction::Stop) == (phase == MappingPhase::Pressed && !pressed)
                },
                MappingMode::OnHold { hold_ms } => {
                    &&& (action == PhaseAction::Start) == (pressed && (phase matches MappingPhase::HeldPending { since } && now - since >= hold_ms))
                    &&& (action == PhaseAction::Stop) == (phase == MappingPhase::Pressed && !pressed)
                },
                MappingMode::Toggle => {
                    &&& (action == PhaseAction::Start) == (phase == MappingPhase::Released && pressed)
                    &&& (action == PhaseAction::Stop) == (phase == MappingPhase::Pressed && pressed)
                },
                MappingMode::MacroOnPress => {
                    &&& (action == PhaseAction::Start) == (phase == MappingPhase::Released && pressed)
                    &&& action != PhaseAction::Stop
                },
                MappingMode::MacroOnRelease => {
                    &&& (action == PhaseAction::Start) == (phase == MappingPhase::Pressed && !pressed)
                    &&& action != PhaseAction::Stop
                },
                MappingMode::MacroOnTap { tap_ms } => {
                    &&& (action == PhaseAction::Start) == (!pressed && (phase matches MappingPhase::HeldPending { since } && now - since < tap_ms))
                    &&& action != PhaseAction::Stop
                },
                MappingMode::MacroOnDoubleTap { tap_ms } => {
                    &&& (action == PhaseAction::Start) == (!pressed && (phase matches MappingPhase::DoubleTapSecondPressed { since } && now - since < tap_ms))
                    &&& action != PhaseAction::Stop
                },
                MappingMode::MacroOnHold { hold_ms } => {
                    &&& (action == PhaseAction::Start) == (pressed && (phase matches MappingPhase::HeldPending { since } && now - since >= hold_ms))
                    &&& action != PhaseAction::Stop
                },
            }
        }),
{
}

} // verus!
