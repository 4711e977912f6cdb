//! Shared form widgets of the screens (drawn by the UI toolkit).

use vstd::prelude::*;

verus! {

/// Namespace of the shared form widgets.
pub struct FormControls;

} // verus!
