use moho_ui::adapter::{GameState, UiAudioEvent};
use moho_ui::modal::ModalResult;
use moho_ui::modals::KeybindConflictModal;
use moho_ui::overlays::chunk_debug::{chunk_label, chunk_map_cells, ChunkCell, MAP_DIAMETER, VIEW_RADIUS};
use moho_ui::overlays::gameplay_hud::COMPASS_LABELS;
use moho_ui::overlays::{ChunkDebugOverlay, FpsHud, GameplayHud, RtsHud};
use moho_ui::StubUi;

#[test]
fn fps_hud_starts_visible() {
    let hud = FpsHud::new();
    assert!(hud.is_visible());
}

#[test]
fn rts_hud_starts_visible() {
    let hud = RtsHud::new();
    assert!(hud.is_visible());
}

fn bearing_radians(octant: i32) -> f32 {
    octant as f32 * std::f32::consts::FRAC_PI_4
}

#[test]
fn compass_facing_north_at_yaw_zero() {
    let yaw = 0.0_f32;
    let (label, octant) = COMPASS_LABELS[0];
    let diff = bearing_radians(octant) - yaw;
    assert_eq!(label, "N");
    assert!(diff.abs() < std::f32::consts::FRAC_PI_8, "N should be centered at yaw=0");
}

#[test]
fn compass_facing_east_at_yaw_pi_over_2() {
    let yaw = std::f32::consts::FRAC_PI_2;
    let east = COMPASS_LABELS.iter().find(|(l, _)| *l == "E").unwrap();
    let diff = bearing_radians(east.1) - yaw;
    assert!(diff.abs() < std::f32::consts::FRAC_PI_8, "E should be centered at yaw=π/2");
}

#[test]
fn compass_facing_south_at_yaw_pi() {
    let yaw = std::f32::consts::PI;
    let south = COMPASS_LABELS.iter().find(|(l, _)| *l == "S").unwrap();
    let mut diff = bearing_radians(south.1) - yaw;
    while diff > std::f32::consts::PI {
        diff -= std::f32::consts::TAU;
    }
    while diff < -std::f32::consts::PI {
        diff += std::f32::consts::TAU;
    }
    assert!(diff.abs() < std::f32::consts::FRAC_PI_8, "S should be centered at yaw=π");
}

#[test]
fn status_bar_clamp_overdraw() {
    assert_eq!(1.5_f32.clamp(0.0, 1.0), 1.0);
    assert_eq!((-0.1_f32).clamp(0.0, 1.0), 0.0);
}

#[test]
fn huds_filter_on_camera_mode() {
    let mut fps = FpsHud::new();
    let rts = RtsHud::new();
    let gameplay = GameplayHud::new();
    assert!(fps.should_render(true));
    assert!(!fps.should_render(false));
    assert!(rts.should_render(false));
    assert!(!rts.should_render(true));
    assert!(gameplay.should_render(true));
    assert!(!gameplay.should_render(false));
    fps.toggle();
    assert!(!fps.is_visible());
    assert!(!fps.should_render(true));
    assert_eq!(fps.name(), "fps_hud");
    assert_eq!(rts.name(), "rts_hud");
    assert_eq!(gameplay.name(), "gameplay_hud");
}

#[test]
fn chunk_overlay_starts_hidden_and_toggles() {
    let mut o = ChunkDebugOverlay::new();
    assert!(!o.is_visible());
    o.toggle();
    assert!(o.is_visible());
    o.set_visible(false);
    assert!(!o.is_visible());
    assert_eq!(o.name(), "chunk_debug");
}

#[test]
fn chunk_map_marks_player_and_loaded_columns() {
    let loaded = [(3, -2), (4, -2), (100, 100)];
    let cells = chunk_map_cells(3, -2, &loaded);
    assert_eq!(cells.len(), MAP_DIAMETER * MAP_DIAMETER);
    let r = VIEW_RADIUS as usize;
    let at = |dx: i32, dz: i32| cells[(dz + VIEW_RADIUS) as usize * MAP_DIAMETER + (dx + VIEW_RADIUS) as usize];
    assert_eq!(cells[r * MAP_DIAMETER + r], ChunkCell::Player);
    assert_eq!(at(1, 0), ChunkCell::Loaded);
    assert_eq!(at(-1, 0), ChunkCell::Unloaded);
    assert_eq!(at(0, 1), ChunkCell::Unloaded);
    assert_eq!(cells.iter().filter(|c| **c == ChunkCell::Loaded).count(), 1);
}

#[test]
fn chunk_label_shows_signed_coordinates() {
    assert_eq!(chunk_label(3, -2), "chunks (3,-2)");
    assert_eq!(chunk_label(0, 0), "chunks (0,0)");
    assert_eq!(chunk_label(-2147483648, 2147483647), "chunks (-2147483648,2147483647)");
}

#[test]
fn conflict_modal_texts() {
    let m = KeybindConflictModal::new("Move Back".to_string(), "Ctrl+S".to_string());
    assert_eq!(m.title(), "Keybind Conflict");
    assert_eq!(m.usage_line(), "The binding 'Ctrl+S' is currently used by:");
    assert_eq!(m.unbind_warning(), "'Move Back' will be unbound if you proceed.");
}

#[test]
fn shared_enums_compare() {
    assert_ne!(ModalResult::Confirm, ModalResult::Cancel);
    assert_eq!(ModalResult::NoChoice, ModalResult::NoChoice);
    assert_ne!(GameState::Menu, GameState::Playing);
    assert_eq!(UiAudioEvent::Confirm, UiAudioEvent::Confirm);
    let _ = StubUi::new();
}

use moho_ui::adapter::{action_sound, update_menu_music, MusicCommand};
use moho_ui::screens::new_world::NewWorldMenu;
use moho_ui::screens::MenuAction;
use moho_ui::ui_state::UiScreens;

#[test]
fn new_world_form_makes_world_spec() {
    let mut menu = NewWorldMenu::new();
    let spec = menu.world_spec();
    assert_eq!(spec.name, "New World");
    assert_eq!(spec.seed, None);
    assert_eq!(spec.size_xz, 128);

    *menu.name_input_mut() = "   ".to_string();
    *menu.seed_input_mut() = " 12345 ".to_string();
    menu.set_size_xz(256);
    let spec = menu.world_spec();
    assert_eq!(spec.name, "New World");
    assert_eq!(spec.seed, Some(12345));
    assert_eq!(spec.size_xz, 256);

    *menu.name_input_mut() = format!("  {}  ", "x".repeat(70));
    *menu.seed_input_mut() = "not a number".to_string();
    let spec = menu.world_spec();
    assert_eq!(spec.name, "x".repeat(64));
    assert_eq!(spec.seed, None);

    *menu.seed_input_mut() = "18446744073709551615".to_string();
    assert_eq!(menu.world_spec().seed, Some(u64::MAX));
    *menu.seed_input_mut() = "18446744073709551616".to_string();
    assert_eq!(menu.world_spec().seed, None);
    *menu.seed_input_mut() = "+7".to_string();
    assert_eq!(menu.world_spec().seed, Some(7));
}

#[test]
fn screens_show_and_hide() {
    let mut screens = UiScreens::new();
    assert_eq!(screens.active_screen_name(), Some("start"));
    assert!(screens.is_visible());

    let (shown, t) = screens.show_screen("settings");
    assert!(shown);
    assert_eq!(t.hidden.as_deref(), Some("start"));
    assert_eq!(t.shown.as_deref(), Some("settings"));
    assert!(screens.is_screen_active("settings"));

    let (shown, t) = screens.show_screen("missing");
    assert!(!shown);
    assert!(t.hidden.is_none() && t.shown.is_none());
    assert!(screens.is_screen_active("settings"));

    assert_eq!(screens.hide_all().as_deref(), Some("settings"));
    assert_eq!(screens.active_screen_name(), None);
    assert!(!screens.is_visible());

    screens.add_screen("credits".to_string());
    screens.add_screen("credits".to_string());
    assert!(screens.has_screen("credits"));
    let (shown, t) = screens.show_screen("credits");
    assert!(shown);
    assert!(t.hidden.is_none());
    assert!(screens.is_visible());
}

#[test]
fn menu_sounds_and_music() {
    assert_eq!(action_sound(&MenuAction::Exit), Some(UiAudioEvent::ButtonClick));
    assert_eq!(action_sound(&MenuAction::Close), Some(UiAudioEvent::Cancel));
    assert_eq!(action_sound(&MenuAction::ShowMenu("settings".to_string())), Some(UiAudioEvent::MenuNavigate));
    assert_eq!(action_sound(&MenuAction::NoAction), None);

    let mut playing = false;
    let cmds = update_menu_music(&[MenuAction::ShowMenu("start".to_string())], &mut playing, true);
    assert_eq!(cmds, vec![MusicCommand::Start]);
    assert!(playing);

    let cmds = update_menu_music(
        &[MenuAction::ShowMenu("start".to_string()), MenuAction::LoadScene("saves/scene.bin".to_string())],
        &mut playing,
        true,
    );
    assert_eq!(cmds, vec![MusicCommand::Stop]);
    assert!(!playing);

    let cmds = update_menu_music(&[MenuAction::Exit, MenuAction::Exit], &mut playing, true);
    assert!(cmds.is_empty());

    let cmds = update_menu_music(&[MenuAction::ShowMenu("start".to_string())], &mut playing, false);
    assert!(cmds.is_empty());
    assert!(!playing);
}

use moho_ui::input_handling::{first_hit_item, ItemHit};

fn hit(enabled: bool, press_inside: bool, release_inside: bool) -> ItemHit {
    ItemHit { enabled, has_rect: true, press_inside, release_inside }
}

#[test]
fn first_hit_needs_press_and_release_inside() {
    let hits = [hit(true, false, true), hit(false, true, true), hit(true, true, true), hit(true, true, true)];
    assert_eq!(first_hit_item(&hits, true), Some(2));
    assert_eq!(first_hit_item(&hits, false), Some(0));
    let no_rect = [ItemHit { enabled: true, has_rect: false, press_inside: true, release_inside: true }];
    assert_eq!(first_hit_item(&no_rect, true), None);
}

#[test]
fn modal_results_that_close_the_dialog() {
    assert!(ModalResult::Confirm.closes_dialog());
    assert!(ModalResult::Cancel.closes_dialog());
    assert!(!ModalResult::NoChoice.closes_dialog());
}

use moho_ui::adapter::{layers_for, menu_item_uses, opens_console, ItemUse};

#[test]
fn layers_follow_game_state() {
    let menu = layers_for(GameState::Menu);
    assert!(menu.menu && !menu.overlays && !menu.console && !menu.pause);
    let console = layers_for(GameState::ConsoleOpen);
    assert!(!console.menu && console.overlays && console.console && !console.pause);
    let paused = layers_for(GameState::Paused);
    assert!(paused.overlays && paused.pause && !paused.console);
    let playing = layers_for(GameState::Playing);
    assert!(playing.overlays && !playing.pause && !playing.console && !playing.menu);
    assert!(opens_console(GameState::Playing, GameState::ConsoleOpen));
    assert!(!opens_console(GameState::ConsoleOpen, GameState::ConsoleOpen));
    assert!(!opens_console(GameState::Playing, GameState::Paused));
}

#[test]
fn clicked_and_hovered_items() {
    let items = [
        ItemUse { enabled: true, clicked: true, hovered: true },
        ItemUse { enabled: false, clicked: true, hovered: true },
        ItemUse { enabled: true, clicked: false, hovered: true },
        ItemUse { enabled: true, clicked: true, hovered: false },
    ];
    let (clicked, hovered) = menu_item_uses(&items);
    assert_eq!(clicked, vec![0, 3]);
    assert_eq!(hovered, Some(2));
    assert_eq!(menu_item_uses(&[]), (vec![], None));
}

#[test]
fn shown_form_has_a_usable_random_seed() {
    let mut menu = NewWorldMenu::new();
    menu.on_show();
    let spec = menu.world_spec();
    assert!(spec.seed.is_some());
    assert_eq!(spec.name, "New World");
    assert_eq!(menu.name(), "new_world");
}

use moho_ui::adapter::{
    closes_menus, finish_progress, hover_plays_sound, needs_render, press_cancel, start_progress,
    take_progress_canceled, ProgressState,
};

#[test]
fn frame_is_drawn_while_menus_show_or_outside_the_menus() {
    assert!(!needs_render(false, GameState::Menu));
    assert!(needs_render(true, GameState::Menu));
    assert!(needs_render(false, GameState::Playing));
    assert!(needs_render(false, GameState::ConsoleOpen));
    assert!(needs_render(false, GameState::Paused));
}

#[test]
fn hover_sound_plays_once_per_new_item() {
    let a = Some("start:new".to_string());
    let b = Some("start:quit".to_string());
    assert!(hover_plays_sound(&None, &a));
    assert!(!hover_plays_sound(&a, &a));
    assert!(hover_plays_sound(&a, &b));
    assert!(!hover_plays_sound(&a, &None));
    assert!(!hover_plays_sound(&None, &None));
}

#[test]
fn close_action_hides_menus() {
    assert!(!closes_menus(&[]));
    assert!(!closes_menus(&[MenuAction::NewWorld, MenuAction::ShowMenu("start".to_string())]));
    assert!(closes_menus(&[MenuAction::NoAction, MenuAction::Close]));
}

#[test]
fn progress_cancel_is_reported_once() {
    let mut screens = UiScreens::new();
    screens.set_visible(false);
    let mut progress: Option<ProgressState> = None;
    assert!(!take_progress_canceled(&mut progress));

    start_progress(&mut progress, &mut screens, "Generating".to_string(), true);
    assert!(screens.is_visible());
    assert_eq!(progress.as_ref().unwrap().title, "Generating");
    assert!(!take_progress_canceled(&mut progress));

    press_cancel(progress.as_mut().unwrap());
    assert!(take_progress_canceled(&mut progress));
    assert!(!take_progress_canceled(&mut progress));

    finish_progress(&mut progress);
    assert!(progress.is_none());
    assert!(!take_progress_canceled(&mut progress));
}

#[test]
fn progress_without_cancel_button_ignores_cancel() {
    let mut screens = UiScreens::new();
    let mut progress: Option<ProgressState> = None;
    start_progress(&mut progress, &mut screens, "Loading".to_string(), false);
    press_cancel(progress.as_mut().unwrap());
    assert!(!take_progress_canceled(&mut progress));
}
