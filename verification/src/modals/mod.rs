//! Modal dialogs.

pub mod keybind_conflict;

pub use keybind_conflict::KeybindConflictModal;
