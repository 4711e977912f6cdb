//! The dialog that asks whether to reassign a key that another binding
//! already uses.

use crate::text::{push_str, string_from_str};
use vstd::prelude::*;

verus! {

/// The conflict dialog: the name of the binding that holds the key and the
/// description of the key.
pub struct KeybindConflictModal {
    conflicting_key_name: String,
    new_binding_description: String,
}

impl KeybindConflictModal {
    /// A dialog for a key described by `new_binding_description` that the
    /// binding `conflicting_key_name` holds.
    pub fn new(conflicting_key_name: String, new_binding_description: String) -> (m: Self)
        ensures
            m.conflicting_key_name()@ == conflicting_key_name@,
            m.new_binding_description()@ == new_binding_description@,
    {
        Self { conflicting_key_name, new_binding_description }
    }

    /// The name of the binding that holds the key.
    pub closed spec fn conflicting_key_name(&self) -> String {
        self.conflicting_key_name
    }

    /// The description of the key.
    pub closed spec fn new_binding_description(&self) -> String {
        self.new_binding_description
    }

    /// The name of the binding that holds the key.
    pub fn conflicting_key(&self) -> (s: &str)
        ensures
            s@ == self.conflicting_key_name()@,
    {
        self.conflicting_key_name.as_str()
    }

    /// The description of the key.
    pub fn binding_description(&self) -> (s: &str)
        ensures
            s@ == self.new_binding_description()@,
    {
        self.new_binding_description.as_str()
    }

    /// The dialog's title.
    pub fn title(&self) -> (s: &'static str)
        ensures
            s@ == "Keybind Conflict"@,
    {
        "Keybind Conflict"
    }

    /// The line that names the key: `The binding '<key>' is currently used by:`.
    pub fn usage_line(&self) -> (s: String)
        ensures
            s@ == "The binding '"@ + self.new_binding_description()@ + "' is currently used by:"@,
    {
        let mut s = string_from_str("The binding '");
        push_str(&mut s, self.new_binding_description.as_str());
        push_str(&mut s, "' is currently used by:");
        s
    }

    /// The warning under the question: `'<name>' will be unbound if you proceed.`.
    pub fn unbind_warning(&self) -> (s: String)
        ensures
            s@ == "'"@ + self.conflicting_key_name()@ + "' will be unbound if you proceed."@,
    {
        let mut s = string_from_str("'");
        push_str(&mut s, self.conflicting_key_name.as_str());
        push_str(&mut s, "' will be unbound if you proceed.");
        s
    }
}

} // verus!
