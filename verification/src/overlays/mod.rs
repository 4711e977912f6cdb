//! In-game overlays: the debug console and the heads-up displays.

pub mod basic_console;
pub mod chunk_debug;
pub mod console;
pub mod fps_hud;
pub mod gameplay_hud;
pub mod rts_hud;

pub use chunk_debug::ChunkDebugOverlay;
pub use console::{CommandResult, Console, ConsoleAction};
pub use fps_hud::FpsHud;
pub use gameplay_hud::GameplayHud;
pub use rts_hud::RtsHud;
