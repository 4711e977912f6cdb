//! The gameplay HUD: compass, status bars and hotbar, shown in first-person
//! camera mode only.

use vstd::prelude::*;

verus! {

/// Gameplay HUD (compass, status bars, hotbar).
#[derive(Debug)]
pub struct GameplayHud {
    visible: bool,
}

impl GameplayHud {
    /// A visible HUD.
    pub fn new() -> (h: Self)
        ensures
            h.visible(),
    {
        Self { visible: true }
    }

    /// Whether the user has the HUD switched on.
    pub closed spec fn visible(&self) -> bool {
        self.visible
    }

    /// The overlay's name.
    pub fn name(&self) -> (s: &'static str)
        ensures
            s@ == "gameplay_hud"@,
    {
        "gameplay_hud"
    }

    /// Whether the user has the HUD switched on.
    pub fn is_visible(&self) -> (b: bool)
        ensures
            b == self.visible(),
    {
        self.visible
    }

    /// Switches the HUD on or off.
    pub fn set_visible(&mut self, visible: bool)
        ensures
            final(self).visible() == visible,
    {
        self.visible = visible;
    }

    /// Switches the HUD over.
    pub fn toggle(&mut self)
        ensures
            final(self).visible() == !old(self).visible(),
    {
        self.visible = !self.visible;
    }

    /// Whether the HUD is drawn this frame: switched on and in first-person
    /// mode.
    pub fn should_render(&self, is_fps_mode: bool) -> (b: bool)
        ensures
            b == (self.visible() && is_fps_mode),
    {
        self.visible && is_fps_mode
    }
}

/// The compass labels with their bearings in eighths of a full turn,
/// clockwise from North (+Z): N is 0, E is 2, S is 4, W is -2.  A label is
/// at `bearing * π/4` radians.
pub const COMPASS_LABELS: [(&'static str, i32); 8] = [
    ("N", 0),
    ("NE", 1),
    ("E", 2),
    ("SE", 3),
    ("S", 4),
    ("SW", -3),
    ("W", -2),
    ("NW", -1),
];

impl Default for GameplayHud {
    fn default() -> (h: Self)
        ensures
            h.visible(),
    {
        Self::new()
    }
}

} // verus!
