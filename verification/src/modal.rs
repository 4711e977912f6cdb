//! Results of modal dialogs.

use vstd::prelude::*;

verus! {

/// What the user chose in a modal dialog this frame.
#[derive(Debug, Clone, Copy, PartialEq, Eq, Structural)]
pub enum ModalResult {
    /// No choice yet; the dialog stays open.
    NoChoice,
    /// The user confirmed.
    Confirm,
    /// The user cancelled.
    Cancel,
}

impl ModalResult {
    /// Whether the choice closes the dialog: confirming and cancelling do;
    /// the dialog stays open while no choice is made.
    pub fn closes_dialog(self) -> (b: bool)
        ensures
            b == !(self == ModalResult::NoChoice),
    {
        match self {
            ModalResult::NoChoice => false,
            ModalResult::Confirm => true,
            ModalResult::Cancel => true,
        }
    }
}

} // verus!
