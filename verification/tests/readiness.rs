use crud_sqlite::readiness::{set_complete, subsystem_of_name, Phase, SetupState, Subsystem};

fn count_reveals(marks: &[Subsystem]) -> (usize, SetupState) {
    let mut state = SetupState::new();
    let mut reveals = 0;
    for mark in marks {
        if state.mark(*mark) {
            reveals += 1;
        }
    }
    (reveals, state)
}

#[test]
fn new_state_is_idle() {
    let state = SetupState::new();
    assert!(!state.frontend_task);
    assert!(!state.backend_task);
    assert!(!state.revealed);
    assert_eq!(state.phase(), Phase::Idle);
}

#[test]
fn backend_then_frontend_reveals_once() {
    let mut state = SetupState::new();
    assert!(!set_complete(&mut state, "backend"));
    assert!(set_complete(&mut state, "frontend"));
    assert_eq!(state.phase(), Phase::Revealed);
    assert!(state.revealed);
}

#[test]
fn frontend_then_backend_reveals_once() {
    let mut state = SetupState::new();
    assert!(!set_complete(&mut state, "frontend"));
    assert!(set_complete(&mut state, "backend"));
    assert_eq!(state.phase(), Phase::Revealed);
    assert!(state.revealed);
}

#[test]
fn third_mark_after_reveal_is_noop() {
    let mut state = SetupState::new();
    state.mark(Subsystem::Backend);
    state.mark(Subsystem::Frontend);
    let revealed = state;
    assert!(!state.mark(Subsystem::Backend));
    assert_eq!(state, revealed);
    assert!(!state.mark(Subsystem::Frontend));
    assert_eq!(state, revealed);
}

#[test]
fn backend_from_idle_is_one_pending() {
    let mut state = SetupState::new();
    let reveal = set_complete(&mut state, "backend");
    assert!(!reveal);
    assert_eq!(state.phase(), Phase::OnePending);
    assert_eq!(
        state,
        SetupState { frontend_task: false, backend_task: true, revealed: false }
    );
}

#[test]
fn repeated_mark_of_one_subsystem_never_reveals() {
    let mut state = SetupState::new();
    assert!(!state.mark(Subsystem::Frontend));
    let once = state;
    assert!(!state.mark(Subsystem::Frontend));
    assert_eq!(state, once);
    assert_eq!(state.phase(), Phase::OnePending);
}

#[test]
fn names_of_subsystems() {
    assert_eq!(subsystem_of_name("frontend"), Some(Subsystem::Frontend));
    assert_eq!(subsystem_of_name("backend"), Some(Subsystem::Backend));
    assert_eq!(subsystem_of_name("Backend"), None);
    assert_eq!(subsystem_of_name(""), None);
    assert_eq!(subsystem_of_name("frontend "), None);
}

#[test]
fn every_interleaving_reveals_exactly_when_both_reported() {
    let both = [Subsystem::Frontend, Subsystem::Backend];
    for length in 0..6usize {
        for code in 0..(1usize << length) {
            let marks: Vec<Subsystem> = (0..length).map(|bit| both[(code >> bit) & 1]).collect();
            let (reveals, state) = count_reveals(&marks);
            let expected = marks.contains(&Subsystem::Frontend) && marks.contains(&Subsystem::Backend);
            assert_eq!(reveals, if expected { 1 } else { 0 });
            assert_eq!(state.revealed, expected);
            assert_eq!(state.revealed, state.frontend_task && state.backend_task);
        }
    }
}
