//! The outer game-state machine: alive play, death, pause, and the two
//! reward interludes, with a small history stack for nested screens.

use vstd::prelude::*;

verus! {

#[derive(Clone, Copy, PartialEq, Eq, Structural, Debug)]
pub enum GameState {
    Alive,
    Dead,
    Paused,
    ChooseCard,
    PowerupCard,
}

/// Pausing toggles between the two play states and leaves every other
/// state alone.
pub open spec fn spec_toggle_pause(s: GameState) -> GameState {
    match s {
        GameState::Alive => GameState::Paused,
        GameState::Paused => GameState::Alive,
        _ => s,
    }
}

impl GameState {
    pub fn new() -> (s: GameState)
        ensures
            s == GameState::Alive,
    {
        GameState::Alive
    }

    pub fn toggle_pause(&mut self)
        ensures
            *final(self) == spec_toggle_pause(*old(self)),
    {
        match self {
            GameState::Alive => *self = GameState::Paused,
            GameState::Paused => *self = GameState::Alive,
            _ => {},
        }
    }
}

pub struct GameStateManager {
    pub current_state: GameState,
    pub last_states: Vec<GameState>,
}

impl GameStateManager {
    pub open spec fn wf(self) -> bool {
        self.last_states@.len() <= 1_000_000
    }

    pub fn new() -> (m: GameStateManager)
        ensures
            m.wf(),
            m.current_state == GameState::Alive,
            m.last_states@.len() == 0,
    {
        GameStateManager { current_state: GameState::new(), last_states: Vec::new() }
    }

    /// The cursor is shown on every screen where the simulation rests.
    pub fn show_mouse(&self) -> (r: bool)
        ensures
            r == (self.current_state == GameState::Paused || self.current_state
                == GameState::ChooseCard || self.current_state == GameState::PowerupCard),
    {
        match self.current_state {
            GameState::Paused | GameState::ChooseCard | GameState::PowerupCard => true,
            _ => false,
        }
    }

    /// Enter a new state, remembering the one being left; a full
    /// history stack forgets the state being left instead.
    pub fn next(&mut self, next_state: GameState)
        requires
            old(self).wf(),
        ensures
            final(self).wf(),
            final(self).current_state == next_state,
            old(self).last_states@.len() < 1_000_000 ==> final(self).last_states@ == old(
                self,
            ).last_states@.push(old(self).current_state),
            old(self).last_states@.len() >= 1_000_000 ==> final(self).last_states@ == old(
                self,
            ).last_states@,
    {
        if self.last_states.len() < 1_000_000 {
            self.last_states.push(self.current_state);
        }
        self.current_state = next_state;
    }

    /// Return to the remembered state, or to live play if none is left.
    pub fn back(&mut self)
        requires
            old(self).wf(),
        ensures
            final(self).wf(),
            old(self).last_states@.len() > 0 ==> {
                &&& final(self).current_state == old(self).last_states@.last()
                &&& final(self).last_states@ == old(self).last_states@.drop_last()
            },
            old(self).last_states@.len() == 0 ==> {
                &&& final(self).current_state == GameState::Alive
                &&& final(self).last_states@ == old(self).last_states@
            },
    {
        self.current_state = match self.last_states.pop() {
            Some(s) => s,
            None => GameState::Alive,
        };
    }

    pub fn toggle_pause(&mut self)
        requires
            old(self).wf(),
        ensures
            final(self).wf(),
            final(self).current_state == spec_toggle_pause(old(self).current_state),
            final(self).last_states == old(self).last_states,
    {
        self.current_state.toggle_pause();
    }

    pub fn current_state(&self) -> (s: GameState)
        ensures
            s == self.current_state,
    {
        self.current_state
    }
}

} // verus!
