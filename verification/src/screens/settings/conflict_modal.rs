//! State of the dialog that asks whether to replace a conflicting binding.

use crate::prefs::Binding;
use vstd::prelude::*;

verus! {

/// A binding the user asked for that conflicts with another binding.
#[derive(Clone, Copy, Debug, PartialEq, Eq, Structural)]
pub struct PendingBinding {
    /// The numeric id of the binding being configured (0-5).
    pub target_id: usize,
    /// The binding the user wants to assign.
    pub binding: Binding,
    /// The numeric id of the binding that already holds it, if any.
    pub conflicting_id: Option<usize>,
}

/// What the conflict dialog holds.
pub struct ConflictModalView {
    pub show: bool,
    pub pending: Option<PendingBinding>,
    pub key_name: Seq<char>,
    pub binding_desc: Seq<char>,
}

/// State for the keybind conflict dialog: whether it is shown, the pending
/// binding, the name of the conflicting binding (e.g. `Move Forward`) and the
/// description of the key (e.g. `Ctrl+W`).
pub struct ConflictModalState {
    show: bool,
    pending: Option<PendingBinding>,
    conflict_key_name: String,
    conflict_binding_desc: String,
}

impl View for ConflictModalState {
    type V = ConflictModalView;

    closed spec fn view(&self) -> ConflictModalView {
        ConflictModalView {
            show: self.show,
            pending: self.pending,
            key_name: self.conflict_key_name@,
            binding_desc: self.conflict_binding_desc@,
        }
    }
}

/// The hidden, empty dialog state.
pub open spec fn cleared_modal(v: ConflictModalView) -> bool {
    &&& !v.show
    &&& v.pending is None
    &&& v.key_name == Seq::<char>::empty()
    &&& v.binding_desc == Seq::<char>::empty()
}

impl ConflictModalState {
    /// A hidden dialog with nothing pending.
    pub fn new() -> (m: Self)
        ensures
            cleared_modal(m@),
    {
        Self {
            show: false,
            pending: None,
            conflict_key_name: String::new(),
            conflict_binding_desc: String::new(),
        }
    }

    /// Shows the dialog for a pending binding.
    pub fn show(&mut self, pending: PendingBinding, conflict_key_name: String, conflict_binding_desc: String)
        ensures
            final(self)@.show,
            final(self)@.pending == Some(pending),
            final(self)@.key_name == conflict_key_name@,
            final(self)@.binding_desc == conflict_binding_desc@,
    {
        self.show = true;
        self.pending = Some(pending);
        self.conflict_key_name = conflict_key_name;
        self.conflict_binding_desc = conflict_binding_desc;
    }

    /// Whether the dialog is shown.
    pub fn is_visible(&self) -> (b: bool)
        ensures
            b == self@.show,
    {
        self.show
    }

    /// Hides the dialog, keeping the pending binding.
    pub fn hide_dialog(&mut self)
        ensures
            !final(self)@.show,
            final(self)@.pending == old(self)@.pending,
            final(self)@.key_name == old(self)@.key_name,
            final(self)@.binding_desc == old(self)@.binding_desc,
    {
        self.show = false;
    }

    /// Takes the pending binding out of the dialog state.
    pub fn take_pending(&mut self) -> (p: Option<PendingBinding>)
        ensures
            p == old(self)@.pending,
            final(self)@.pending is None,
            final(self)@.show == old(self)@.show,
            final(self)@.key_name == old(self)@.key_name,
            final(self)@.binding_desc == old(self)@.binding_desc,
    {
        let p = self.pending;
        self.pending = None;
        p
    }

    /// The pending binding, if any.
    pub fn pending(&self) -> (p: Option<PendingBinding>)
        ensures
            p == self@.pending,
    {
        self.pending
    }

    /// The name of the conflicting binding.
    pub fn conflict_key_name(&self) -> (s: &str)
        ensures
            s@ == self@.key_name,
    {
        self.conflict_key_name.as_str()
    }

    /// The description of the key that conflicts.
    pub fn conflict_binding_desc(&self) -> (s: &str)
        ensures
            s@ == self@.binding_desc,
    {
        self.conflict_binding_desc.as_str()
    }

    /// Hides the dialog and forgets the pending binding and its texts.
    pub fn clear(&mut self)
        ensures
            cleared_modal(final(self)@),
    {
        self.show = false;
        self.pending = None;
        self.conflict_key_name = String::new();
        self.conflict_binding_desc = String::new();
    }
}

impl Default for ConflictModalState {
    fn default() -> (m: Self)
        ensures
            cleared_modal(m@),
    {
        Self::new()
    }
}

} // verus!
