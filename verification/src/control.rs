//! Pausing, resuming and leaving the simulation from the keyboard.

use vstd::prelude::*;

verus! {

/// Whether the flock moves.
#[derive(Clone, Copy, Debug, PartialEq, Eq, Structural)]
pub enum AppState {
    Running,
    Paused,
}

/// What the keys ask for.
#[derive(Clone, Copy, Debug, PartialEq, Eq, Structural)]
pub enum Command {
    /// Nothing changes.
    Stay,
    /// The simulation goes to the given state.
    Switch(AppState),
    /// The simulation ends.
    Quit,
}

/// What the keys ask for: the pause key switches between running and
/// paused; else the quit key ends the simulation.
pub open spec fn command_for(pause_pressed: bool, quit_pressed: bool, state: AppState) -> Command {
    if pause_pressed {
        match state {
            AppState::Paused => Command::Switch(AppState::Running),
            AppState::Running => Command::Switch(AppState::Paused),
        }
    } else if quit_pressed {
        Command::Quit
    } else {
        Command::Stay
    }
}

/// Decides what the keys that were just pressed ask for in the given state.
pub fn check_keyboard_input(pause_pressed: bool, quit_pressed: bool, state: AppState) -> (c: Command)
    ensures
        c == command_for(pause_pressed, quit_pressed, state),
{
    if pause_pressed {
        match state {
            AppState::Paused => Command::Switch(AppState::Running),
            AppState::Running => Command::Switch(AppState::Paused),
        }
    } else if quit_pressed {
        Command::Quit
    } else {
        Command::Stay
    }
}

} // verus!
