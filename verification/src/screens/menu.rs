//! What a screen asks the UI adapter to do.

use super::new_world::WorldSpec;
use crate::prefs::Prefs;
use vstd::prelude::*;

verus! {

/// An action a menu returns when the user interacts with it.
pub enum MenuAction {
    /// Nothing to do.
    NoAction,
    /// Load the scene at this path.
    LoadScene(String),
    /// Open the New World menu.
    NewWorld,
    /// Generate a world with these parameters.
    GenerateWorld(WorldSpec),
    /// Quit the game.
    Exit,
    /// Show the menu of this name.
    ShowMenu(String),
    /// Close the menus.
    Close,
    /// The settings were saved with these preferences.
    SettingsSaved(Prefs),
}

} // verus!
