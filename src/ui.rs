//! The interaction modes, and the actions that the button panel offers.
use vstd::prelude::*;

verus! {

/// What the user is doing.
#[derive(Clone, Copy, Debug, PartialEq, Eq, Structural)]
pub enum SimState {
    Idle,
    /// Placing tiles.
    Placing,
    /// Deleting tiles.
    Deleting,
    /// Placing marbles.
    PlacingMarbles,
    /// Game is paused mid-simulation.
    Paused,
    /// Game simulation is running.
    Running,
}

impl Default for SimState {
    fn default() -> (r: SimState)
        ensures
            r == SimState::Idle,
    {
        SimState::Idle
    }
}

/// The action buttons of the panel.
#[derive(Clone, Copy, Debug, PartialEq, Eq, Structural)]
pub enum Action {
    Delete,
    Rewind,
    Play,
    Pause,
}

impl Action {
    /// The mode that pressing this action's button enters.
    pub open spec fn spec_target_state(self) -> SimState {
        match self {
            Action::Delete => SimState::Deleting,
            Action::Rewind => SimState::Idle,
            Action::Play => SimState::Running,
            Action::Pause => SimState::Paused,
        }
    }

    /// The mode that pressing this action's button enters.
    pub fn target_state(self) -> (r: SimState)
        ensures
            r == self.spec_target_state(),
    {
        match self {
            Action::Delete => SimState::Deleting,
            Action::Rewind => SimState::Idle,
            Action::Play => SimState::Running,
            Action::Pause => SimState::Paused,
        }
    }
}

} // verus!
