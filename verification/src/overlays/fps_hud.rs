//! The first-person HUD: crosshair and time of day, shown in first-person
//! camera mode only.

use vstd::prelude::*;

verus! {

/// First-person gameplay HUD.
#[derive(Debug)]
pub struct FpsHud {
    visible: bool,
}

impl FpsHud {
    /// A visible HUD.
    pub fn new() -> (h: Self)
        ensures
            h.visible(),
    {
        Self { visible: true }
    }

    /// Whether the user has the HUD switched on.
    pub closed spec fn visible(&self) -> bool {
        self.visible
    }

    /// The overlay's name.
    pub fn name(&self) -> (s: &'static str)
        ensures
            s@ == "fps_hud"@,
    {
        "fps_hud"
    }

    /// Whether the user has the HUD switched on.
    pub fn is_visible(&self) -> (b: bool)
        ensures
            b == self.visible(),
    {
        self.visible
    }

    /// Switches the HUD on or off.
    pub fn set_visible(&mut self, visible: bool)
        ensures
            final(self).visible() == visible,
    {
        self.visible = visible;
    }

    /// Switches the HUD over.
    pub fn toggle(&mut self)
        ensures
            final(self).visible() == !old(self).visible(),
    {
        self.visible = !self.visible;
    }

    /// Whether the HUD is drawn this frame: switched on and in first-person
    /// mode.
    pub fn should_render(&self, is_fps_mode: bool) -> (b: bool)
        ensures
            b == (self.visible() && is_fps_mode),
    {
        self.visible && is_fps_mode
    }
}

impl Default for FpsHud {
    fn default() -> (h: Self)
        ensures
            h.visible(),
    {
        Self::new()
    }
}

} // verus!
