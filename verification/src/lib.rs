//! Verified core of the moho game UI: key bindings, preferences, the debug
//! console, the heads-up displays, and the settings-screen state machines.

pub mod adapter;
pub mod forms;
pub mod input_handling;
pub mod modal;
pub mod modals;
pub mod overlays;
pub mod prefs;
pub mod screens;
pub mod text;
pub mod ui_state;

use vstd::prelude::*;

verus! {

/// The user interface used when no UI toolkit is available: it draws
/// nothing.
#[derive(Debug)]
pub struct StubUi;

impl StubUi {
    /// The stub interface.
    pub fn new() -> (ui: Self) {
        StubUi
    }
}

impl Default for StubUi {
    fn default() -> (ui: Self) {
        StubUi
    }
}

} // verus!
