//! The adaptive engine: the level/attempt state machine that decides when a
//! student advances, retries, or finishes.
//!
//! The machine is a pure function of the current state and an action.  It
//! needs no server round-trip except fetching a question for the current
//! level and the single terminal score write, both of which the caller
//! performs; on entering `Finished` the caller persists `level` exactly once
//! as the student's final score.

use vstd::prelude::*;

verus! {

/// The phase the student is in.
#[derive(Clone, Copy, Debug, PartialEq, Eq, Structural)]
pub enum State {
    /// Before a successful registration.
    Registration,
    /// Answering questions.
    Testing,
    /// Terminal: no further transitions occur.
    Finished,
}

/// What the student did.
#[derive(Clone, Copy, Debug, PartialEq, Eq, Structural)]
pub enum Action {
    /// Give up immediately, keeping the current level.
    Quit,
    /// Decline a harder question: spend one of the three attempts at the
    /// current level.
    Next,
    /// Ask for a harder question.
    LevelUp,
}

/// The client-held engine state.
#[derive(Clone, Copy, Debug, PartialEq, Eq, Structural)]
pub struct TestState {
    pub state: State,
    pub level: i32,
    pub attempt: i32,
    pub has_drawn: bool,
}

/// Levels run 1 through 8 and attempts 1 through 3.
pub open spec fn state_wf(s: TestState) -> bool {
    &&& 1 <= s.level <= 8
    &&& 1 <= s.attempt <= 3
}

/// The transition function: `Next` burns an attempt and finishes after the
/// third, `LevelUp` advances with a fresh attempt counter and finishes past
/// level 8, `Quit` finishes at once preserving the level.  `Finished` is
/// terminal: no action changes anything from it.
pub open spec fn step(s: TestState, action: Action) -> TestState {
    if s.state == State::Finished {
        s
    } else {
        match action {
            Action::Quit => TestState { state: State::Finished, ..s },
            Action::Next => if s.attempt < 3 {
                TestState { attempt: (s.attempt + 1) as i32, ..s }
            } else {
                TestState { state: State::Finished, ..s }
            },
            Action::LevelUp => if s.level < 8 {
                TestState { level: (s.level + 1) as i32, attempt: 1, ..s }
            } else {
                TestState { state: State::Finished, ..s }
            },
        }
    }
}

impl TestState {
    /// A fresh engine: registration phase, level 1, attempt 1, nothing
    /// drawn yet.
    pub fn new() -> (s: Self)
        ensures
            s == (TestState {
                state: State::Registration,
                level: 1,
                attempt: 1,
                has_drawn: false,
            }),
            state_wf(s),
    {
        TestState { state: State::Registration, level: 1, attempt: 1, has_drawn: false }
    }

    /// Apply one action.  The machine never leaves the level or attempt
    /// ranges, `Finished` preserves the level reached, and once finished
    /// nothing moves again.
    pub fn perform_action(&mut self, action: Action)
        requires
            state_wf(*old(self)),
        ensures
            *final(self) == step(*old(self), action),
            state_wf(*final(self)),
    {
        if matches!(self.state, State::Finished) {
            return;
        }
        match action {
            Action::Quit => self.state = State::Finished,
            Action::Next => {
                if self.attempt < 3 {
                    self.attempt = self.attempt + 1;
                } else {
                    self.state = State::Finished;
                }
            },
            Action::LevelUp => {
                if self.level < 8 {
                    self.level = self.level + 1;
                    self.attempt = 1;
                } else {
                    self.state = State::Finished;
                }
            },
        }
    }
}

/// Every action preserves well-formedness, the level never falls, and
/// `Finished` is terminal: from it every action leaves the state exactly
/// as it is.
pub proof fn lemma_step_preserves_wf(s: TestState, action: Action)
    requires
        state_wf(s),
    ensures
        state_wf(step(s, action)),
        step(s, action).level >= s.level,
        s.state == State::Finished ==> step(s, action) == s,
{
}

} // verus!
