use rukey::collections::{InputSet, MappingList, OutputSequence};
use rukey::config::{
    ComputerInput, KeyboardInput, Mapping, MappingMode, MouseInput, Profile, RukeyControl,
    RukeyInput,
};
use rukey::input::{Keymap, RukeyInputState};
use rukey::mapping_state::{
    KeyboardEvent, MappingPhase, MappingState, MappingStep, MouseEvent, OutputEvent,
};

fn mapping(inputs: &[RukeyInput], mode: MappingMode, outputs: &[ComputerInput]) -> Mapping {
    Mapping {
        input_set: InputSet::from_slice(inputs).unwrap(),
        mode,
        output_sequence: OutputSequence::from_slice(outputs).unwrap(),
    }
}

fn key(k: KeyboardInput) -> ComputerInput {
    ComputerInput::Keyboard(k)
}

fn down(k: KeyboardInput) -> OutputEvent {
    OutputEvent::Keyboard(KeyboardEvent::Pressed(k))
}

fn up(k: KeyboardInput) -> OutputEvent {
    OutputEvent::Keyboard(KeyboardEvent::Released(k))
}

/// Runs one tick and returns the next state and the events.
fn tick(s: MappingState, m: &Mapping, pressed: bool, now: u64) -> (MappingState, Vec<OutputEvent>) {
    let mut events = Vec::new();
    match s.process(m, pressed, now, &mut events) {
        MappingStep::Continue(next) => (next, events),
        MappingStep::SetProfile(p) => panic!("unexpected profile switch to {p}"),
    }
}

#[test]
fn on_press_waits_for_release_then_presses_and_releases() {
    let m = mapping(&[RukeyInput::Row0Col0], MappingMode::OnPress, &[key(KeyboardInput::A), key(KeyboardInput::B)]);
    let s = MappingState::new();
    let (s, e) = tick(s, &m, true, 0);
    assert_eq!(s.phase, MappingPhase::Initial);
    assert!(e.is_empty());
    let (s, e) = tick(s, &m, false, 1);
    assert_eq!(s.phase, MappingPhase::Released);
    assert!(e.is_empty());
    let (s, e) = tick(s, &m, true, 2);
    assert_eq!(s.phase, MappingPhase::Pressed);
    assert_eq!(e, vec![down(KeyboardInput::A), down(KeyboardInput::B)]);
    let (s, e) = tick(s, &m, true, 3);
    assert!(e.is_empty());
    let (s, e) = tick(s, &m, false, 4);
    assert_eq!(s.phase, MappingPhase::Released);
    assert_eq!(s.output, None);
    assert_eq!(e, vec![up(KeyboardInput::A), up(KeyboardInput::B)]);
}

#[test]
fn after_millis_hold_blocks_until_the_time_has_passed() {
    let m = mapping(
        &[RukeyInput::Row0Col0],
        MappingMode::OnPress,
        &[key(KeyboardInput::A), ComputerInput::Control(RukeyControl::AfterMillisHold(100)), key(KeyboardInput::B)],
    );
    let (s, _) = tick(MappingState::new(), &m, false, 0);
    let (s, e) = tick(s, &m, true, 10);
    assert_eq!(e, vec![down(KeyboardInput::A)]);
    let (s, e) = tick(s, &m, true, 109);
    assert!(e.is_empty());
    let (s, e) = tick(s, &m, true, 110);
    assert_eq!(e, vec![down(KeyboardInput::B)]);
    let (_, e) = tick(s, &m, false, 120);
    assert_eq!(e, vec![up(KeyboardInput::A), up(KeyboardInput::B)]);
}

#[test]
fn after_millis_release_lets_go_of_the_earlier_outputs() {
    let m = mapping(
        &[RukeyInput::Row0Col0],
        MappingMode::OnPress,
        &[key(KeyboardInput::A), ComputerInput::Control(RukeyControl::AfterMillisRelease(100)), key(KeyboardInput::B)],
    );
    let (s, _) = tick(MappingState::new(), &m, false, 0);
    let (s, e) = tick(s, &m, true, 10);
    assert_eq!(e, vec![down(KeyboardInput::A)]);
    let (s, e) = tick(s, &m, true, 110);
    assert_eq!(e, vec![up(KeyboardInput::A), down(KeyboardInput::B)]);
    let (_, e) = tick(s, &m, false, 120);
    assert_eq!(e, vec![up(KeyboardInput::B)]);
}

#[test]
fn restart_releases_and_starts_over() {
    let m = mapping(
        &[RukeyInput::Row0Col0],
        MappingMode::OnPress,
        &[key(KeyboardInput::A), ComputerInput::Control(RukeyControl::Restart)],
    );
    let (s, _) = tick(MappingState::new(), &m, false, 0);
    let (s, e) = tick(s, &m, true, 1);
    assert_eq!(e, vec![down(KeyboardInput::A), up(KeyboardInput::A)]);
    let o = s.output.unwrap();
    assert_eq!((o.output_index, o.held_from, o.waiting_since), (0, 0, 1));
    let (_, e) = tick(s, &m, true, 2);
    assert_eq!(e, vec![down(KeyboardInput::A), up(KeyboardInput::A)]);
}

#[test]
fn set_profile_switches_profile() {
    let m = mapping(
        &[RukeyInput::Row0Col0],
        MappingMode::OnPress,
        &[ComputerInput::Control(RukeyControl::SetProfile(1))],
    );
    let (s, _) = tick(MappingState::new(), &m, false, 0);
    let mut events = Vec::new();
    assert_eq!(s.process(&m, true, 1, &mut events), MappingStep::SetProfile(1));
    assert!(events.is_empty());
}

#[test]
fn toggle_starts_on_press_and_stops_on_next_press() {
    let m = mapping(&[RukeyInput::Row0Col0], MappingMode::Toggle, &[key(KeyboardInput::C)]);
    let (s, _) = tick(MappingState::new(), &m, false, 0);
    let (s, e) = tick(s, &m, true, 1);
    assert_eq!(s.phase, MappingPhase::ToggleOnAwaitingRelease);
    assert_eq!(e, vec![down(KeyboardInput::C)]);
    let (s, e) = tick(s, &m, false, 2);
    assert_eq!(s.phase, MappingPhase::Pressed);
    assert!(e.is_empty());
    let (s, e) = tick(s, &m, true, 3);
    assert_eq!(s.phase, MappingPhase::AwaitingRelease);
    assert_eq!(e, vec![up(KeyboardInput::C)]);
    let (s, e) = tick(s, &m, false, 4);
    assert_eq!(s.phase, MappingPhase::Released);
    assert!(e.is_empty());
}

#[test]
fn on_hold_starts_after_the_hold_time() {
    let m = mapping(&[RukeyInput::Row0Col0], MappingMode::OnHold { hold_ms: 100 }, &[key(KeyboardInput::D)]);
    let (s, _) = tick(MappingState::new(), &m, false, 0);
    let (s, e) = tick(s, &m, true, 10);
    assert_eq!(s.phase, MappingPhase::HeldPending { since: 10 });
    assert!(e.is_empty());
    let (s, e) = tick(s, &m, true, 109);
    assert!(e.is_empty());
    let (s, e) = tick(s, &m, true, 110);
    assert_eq!(s.phase, MappingPhase::Pressed);
    assert_eq!(e, vec![down(KeyboardInput::D)]);
    let (_, e) = tick(s, &m, false, 111);
    assert_eq!(e, vec![up(KeyboardInput::D)]);
}

#[test]
fn macro_on_press_runs_to_its_end() {
    let m = mapping(&[RukeyInput::Row0Col0], MappingMode::MacroOnPress, &[key(KeyboardInput::E)]);
    let (s, _) = tick(MappingState::new(), &m, false, 0);
    let (s, e) = tick(s, &m, true, 10);
    assert_eq!(e, vec![down(KeyboardInput::E)]);
    // releasing the input early does not stop the macro
    let (s, e) = tick(s, &m, false, 20);
    assert!(e.is_empty());
    assert!(s.output.is_some());
    let (s, e) = tick(s, &m, false, 60);
    assert!(e.is_empty());
    let (s, e) = tick(s, &m, false, 61);
    assert_eq!(e, vec![up(KeyboardInput::E)]);
    assert_eq!(s.output, None);
}

#[test]
fn macro_ending_with_a_wait_stops_at_once() {
    let m = mapping(
        &[RukeyInput::Row0Col0],
        MappingMode::MacroOnRelease,
        &[key(KeyboardInput::F), ComputerInput::Control(RukeyControl::AfterMillisHold(30))],
    );
    let (s, _) = tick(MappingState::new(), &m, false, 0);
    let (s, e) = tick(s, &m, true, 1);
    assert!(e.is_empty());
    let (s, e) = tick(s, &m, false, 2);
    assert_eq!(e, vec![down(KeyboardInput::F)]);
    let (s, e) = tick(s, &m, false, 32);
    assert_eq!(e, vec![up(KeyboardInput::F)]);
    assert_eq!(s.output, None);
}

#[test]
fn macro_on_tap_fires_on_a_quick_release_only() {
    let m = mapping(&[RukeyInput::Row0Col0], MappingMode::MacroOnTap { tap_ms: 100 }, &[key(KeyboardInput::G)]);
    let (s, _) = tick(MappingState::new(), &m, false, 0);
    let (s, _) = tick(s, &m, true, 10);
    let (s, e) = tick(s, &m, false, 50);
    assert_eq!(e, vec![down(KeyboardInput::G)]);
    let (s, _) = tick(s, &m, false, 200);
    let (s, _) = tick(s, &m, true, 300);
    let (s, e) = tick(s, &m, true, 400);
    assert_eq!(s.phase, MappingPhase::AwaitingRelease);
    assert!(e.is_empty());
    let (s, e) = tick(s, &m, false, 401);
    assert_eq!(s.phase, MappingPhase::Released);
    assert!(e.is_empty());
}

#[test]
fn macro_on_double_tap_fires_on_the_second_release() {
    let m = mapping(
        &[RukeyInput::Row0Col0],
        MappingMode::MacroOnDoubleTap { tap_ms: 100 },
        &[key(KeyboardInput::H)],
    );
    let (s, _) = tick(MappingState::new(), &m, false, 0);
    let (s, _) = tick(s, &m, true, 10);
    let (s, e) = tick(s, &m, false, 20);
    assert_eq!(s.phase, MappingPhase::DoubleTapGap { since: 10 });
    assert!(e.is_empty());
    let (s, _) = tick(s, &m, true, 30);
    assert_eq!(s.phase, MappingPhase::DoubleTapSecondPressed { since: 10 });
    let (s, e) = tick(s, &m, false, 40);
    assert_eq!(s.phase, MappingPhase::Released);
    assert_eq!(e, vec![down(KeyboardInput::H)]);
}

#[test]
fn mouse_outputs_are_pressed_and_released() {
    let m = mapping(
        &[RukeyInput::Row1Col1],
        MappingMode::OnPress,
        &[ComputerInput::Mouse(MouseInput::ScrollUp(20))],
    );
    let (s, _) = tick(MappingState::new(), &m, false, 0);
    let (s, e) = tick(s, &m, true, 1);
    assert_eq!(e, vec![OutputEvent::Mouse(MouseEvent::Pressed(MouseInput::ScrollUp(20)))]);
    let (_, e) = tick(s, &m, false, 2);
    assert_eq!(e, vec![OutputEvent::Mouse(MouseEvent::Released(MouseInput::ScrollUp(20)))]);
}

fn profile(maps: Vec<Mapping>) -> Profile {
    let mut list = MappingList::new();
    for m in maps {
        assert!(list.push(m));
    }
    Profile { mappings: list }
}

#[test]
fn larger_held_combination_suppresses_the_smaller_one() {
    let p = profile(vec![
        mapping(&[RukeyInput::Row0Col0], MappingMode::OnPress, &[key(KeyboardInput::A)]),
        mapping(&[RukeyInput::Row0Col0, RukeyInput::Row0Col1], MappingMode::OnPress, &[key(KeyboardInput::B)]),
    ]);
    let mut keymap = Keymap::new(p, 0);
    let mut input = RukeyInputState::new();
    let mut events = Vec::new();
    assert!(!keymap.process(&input, 0, &mut events));
    assert!(events.is_empty());
    input.set_pressed(0, 0, true);
    input.set_pressed(0, 1, true);
    assert!(input.is_pressed(RukeyInput::Row0Col1));
    assert!(input.is_all_pressed(&[RukeyInput::Row0Col0, RukeyInput::Row0Col1]));
    assert!(!input.is_all_pressed(&[]));
    assert!(!keymap.process(&input, 1, &mut events));
    assert_eq!(events, vec![down(KeyboardInput::B)]);
    events.clear();
    input.set_pressed(0, 1, false);
    assert!(!keymap.process(&input, 2, &mut events));
    assert_eq!(events, vec![down(KeyboardInput::A), up(KeyboardInput::B)]);
    assert_eq!(keymap.last_tick(), 2);
}

#[test]
fn set_profile_asks_for_the_profile_to_load() {
    let p = profile(vec![mapping(
        &[RukeyInput::Row2Col2],
        MappingMode::OnPress,
        &[ComputerInput::Control(RukeyControl::SetProfile(1))],
    )]);
    let mut keymap = Keymap::new(p, 0);
    assert_eq!(keymap.profile_to_load(), None);
    let mut input = RukeyInputState::new();
    let mut events = Vec::new();
    assert!(!keymap.process(&input, 0, &mut events));
    input.set_pressed(2, 2, true);
    assert!(keymap.process(&input, 1, &mut events));
    assert_eq!(keymap.profile_to_load(), Some(1));
    keymap.load_profile(Profile::empty());
    assert_eq!(keymap.profile_to_load(), None);
    keymap.config_updated();
    assert_eq!(keymap.profile_to_load(), Some(0));
}

#[test]
fn double_tap_must_fit_within_tap_ms_from_the_first_press() {
    let m = mapping(
        &[RukeyInput::Row0Col0],
        MappingMode::MacroOnDoubleTap { tap_ms: 10 },
        &[key(KeyboardInput::H)],
    );
    // each hold and the gap are short, but the whole double tap takes 27 ms
    let (s, _) = tick(MappingState::new(), &m, false, 0);
    let (s, _) = tick(s, &m, true, 0);
    let (s, _) = tick(s, &m, false, 9);
    let (s, _) = tick(s, &m, true, 18);
    let (s, e) = tick(s, &m, false, 27);
    assert!(e.is_empty());
    assert!(s.output.is_none());
    // the press at 18 came after the window closed, so it began a new first tap
    assert_eq!(s.phase, MappingPhase::DoubleTapGap { since: 18 });
    // within 10 ms from the first press it fires
    let (s, _) = tick(s, &m, true, 100);
    let (s, _) = tick(s, &m, false, 103);
    let (s, _) = tick(s, &m, true, 105);
    let (s, e) = tick(s, &m, false, 109);
    assert_eq!(e, vec![down(KeyboardInput::H)]);
    assert!(s.output.is_some());
}

#[test]
fn a_press_after_the_gap_expired_starts_over() {
    let m = mapping(
        &[RukeyInput::Row0Col0],
        MappingMode::MacroOnDoubleTap { tap_ms: 10 },
        &[key(KeyboardInput::H)],
    );
    let (s, _) = tick(MappingState::new(), &m, false, 0);
    let (s, _) = tick(s, &m, true, 0);
    let (s, _) = tick(s, &m, false, 5);
    let (s, _) = tick(s, &m, true, 12);
    assert_eq!(s.phase, MappingPhase::HeldPending { since: 12 });
}

#[test]
fn set_profile_releases_what_the_sequence_holds() {
    let m = mapping(
        &[RukeyInput::Row0Col0],
        MappingMode::OnPress,
        &[key(KeyboardInput::A), ComputerInput::Control(RukeyControl::SetProfile(1))],
    );
    let (s, _) = tick(MappingState::new(), &m, false, 0);
    let mut events = Vec::new();
    assert_eq!(s.process(&m, true, 1, &mut events), MappingStep::SetProfile(1));
    assert_eq!(events, vec![down(KeyboardInput::A), up(KeyboardInput::A)]);
}

#[test]
fn set_profile_terminates_every_running_sequence() {
    let p = profile(vec![
        mapping(&[RukeyInput::Row0Col0], MappingMode::OnPress, &[key(KeyboardInput::A)]),
        mapping(
            &[RukeyInput::Row0Col1],
            MappingMode::OnPress,
            &[ComputerInput::Control(RukeyControl::SetProfile(1))],
        ),
        mapping(&[RukeyInput::Row0Col2], MappingMode::OnPress, &[key(KeyboardInput::C)]),
    ]);
    let mut keymap = Keymap::new(p, 0);
    let mut input = RukeyInputState::new();
    let mut events = Vec::new();
    assert!(!keymap.process(&input, 0, &mut events));
    input.set_pressed(0, 0, true);
    input.set_pressed(0, 2, true);
    assert!(!keymap.process(&input, 1, &mut events));
    assert_eq!(events, vec![down(KeyboardInput::A), down(KeyboardInput::C)]);
    events.clear();
    input.set_pressed(0, 1, true);
    assert!(keymap.process(&input, 2, &mut events));
    assert_eq!(events, vec![up(KeyboardInput::A), up(KeyboardInput::C)]);
    assert_eq!(keymap.profile_to_load(), Some(1));
}
