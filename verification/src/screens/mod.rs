//! Screens: the settings menu's state machines and key handling, and the
//! shared form controls.

pub mod form_controls;
pub mod menu;
pub mod new_world;
pub mod settings;

pub use form_controls::FormControls;
pub use menu::MenuAction;
pub use new_world::NewWorldMenu;
pub use settings::{SettingsMenu, SettingsTab};
