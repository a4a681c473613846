//! What the game decides when it starts.

use vstd::prelude::*;

verus! {

/// The states of the whole game.
#[derive(Clone, Copy, Debug, PartialEq, Eq, Structural)]
pub enum GlobalGameStates {
    StartMenu,
    InGame,
}

/// The plugin that sets the game up.
pub struct MainPlugin;

impl MainPlugin {
    /// The state in which the game starts: a process that was given
    /// options on its command line goes straight into the game, any other
    /// shows the start menu. `argument_count` counts the name of the program
    /// too.
    pub fn initial_state(argument_count: usize) -> (state: GlobalGameStates)
        ensures
            state == if argument_count > 1 {
                GlobalGameStates::InGame
            } else {
                GlobalGameStates::StartMenu
            },
    {
        if argument_count > 1 {
            GlobalGameStates::InGame
        } else {
            GlobalGameStates::StartMenu
        }
    }
}

} // verus!
