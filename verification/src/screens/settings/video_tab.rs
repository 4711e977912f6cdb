//! Labels of the Video tab.

use vstd::prelude::*;

verus! {

/// How the game window is shown.
#[derive(Clone, Copy, Debug, PartialEq, Eq, Structural)]
pub enum WindowMode {
    Windowed,
    Fullscreen,
    Borderless,
}

/// The label of a window mode in the mode selector.
pub fn mode_label(mode: WindowMode) -> (s: &'static str)
    ensures
        s@ == match mode {
            WindowMode::Windowed => "Windowed"@,
            WindowMode::Fullscreen => "Fullscreen"@,
            WindowMode::Borderless => "Borderless"@,
        },
{
    match mode {
        WindowMode::Windowed => "Windowed",
        WindowMode::Fullscreen => "Fullscreen",
        WindowMode::Borderless => "Borderless",
    }
}

} // verus!
