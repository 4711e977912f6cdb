//! The form builder namespace (its widgets are drawn by the UI toolkit).

use vstd::prelude::*;

verus! {

/// Namespace of the form-building widgets.
pub struct FormBuilder;

} // verus!
