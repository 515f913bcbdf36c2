use drawtest::engine::{Action, State, TestState};

#[test]
fn new_engine_starts_at_registration() {
    let s = TestState::new();
    assert!(matches!(s.state, State::Registration));
    assert_eq!(s.level, 1);
    assert_eq!(s.attempt, 1);
    assert!(!s.has_drawn);
}

#[test]
fn three_nexts_finish_level_one() {
    let mut s = TestState::new();
    s.state = State::Testing;
    s.perform_action(Action::Next);
    assert!(matches!(s.state, State::Testing));
    assert_eq!(s.attempt, 2);
    s.perform_action(Action::Next);
    assert!(matches!(s.state, State::Testing));
    assert_eq!(s.attempt, 3);
    s.perform_action(Action::Next);
    assert!(matches!(s.state, State::Finished));
    assert_eq!(s.level, 1);
}

#[test]
fn levelup_advances_and_resets_attempt() {
    let mut s = TestState::new();
    s.state = State::Testing;
    s.perform_action(Action::Next);
    s.perform_action(Action::LevelUp);
    assert_eq!(s.level, 2);
    assert_eq!(s.attempt, 1);
    assert!(matches!(s.state, State::Testing));
}

#[test]
fn levelup_at_cap_finishes_immediately() {
    let mut s = TestState::new();
    s.state = State::Testing;
    s.level = 8;
    s.perform_action(Action::LevelUp);
    assert!(matches!(s.state, State::Finished));
    assert_eq!(s.level, 8);
}

#[test]
fn quit_finishes_preserving_level() {
    let mut s = TestState::new();
    s.state = State::Testing;
    s.level = 5;
    s.attempt = 2;
    s.perform_action(Action::Quit);
    assert!(matches!(s.state, State::Finished));
    assert_eq!(s.level, 5);
}

#[test]
fn finished_is_terminal_for_every_action() {
    let mut s = TestState::new();
    s.state = State::Testing;
    s.level = 4;
    s.attempt = 2;
    s.perform_action(Action::Quit);
    assert!(matches!(s.state, State::Finished));
    for action in [Action::Next, Action::LevelUp, Action::Quit] {
        s.perform_action(action);
        assert!(matches!(s.state, State::Finished));
        assert_eq!(s.level, 4);
        assert_eq!(s.attempt, 2);
    }
}

#[test]
fn eight_levels_is_the_longest_run() {
    let mut s = TestState::new();
    s.state = State::Testing;
    for expected in 2..=8 {
        s.perform_action(Action::LevelUp);
        assert_eq!(s.level, expected);
        assert!(matches!(s.state, State::Testing));
    }
    s.perform_action(Action::LevelUp);
    assert!(matches!(s.state, State::Finished));
    assert_eq!(s.level, 8);
}
