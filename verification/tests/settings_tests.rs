use moho_ui::prefs::parser::binding_label;
use moho_ui::prefs::{Binding, Prefs};
use moho_ui::screens::settings::binding_registry::BindingRegistry;
use moho_ui::screens::settings::conflict_modal::{ConflictModalState, PendingBinding};
use moho_ui::screens::settings::key_mapping::{key_to_code, Key};
use moho_ui::screens::settings::keybind_capture::{KeyEvent, KeybindCaptureHandler};
use moho_ui::screens::settings::key_mapping::Modifiers;
use moho_ui::screens::settings::state::SettingsState;
use moho_ui::screens::settings::types::BindingId;
use moho_ui::screens::settings::video_tab::{mode_label, WindowMode};
use moho_ui::screens::settings::SettingsField;
use moho_ui::screens::{SettingsMenu, SettingsTab};

/// Preferences whose Move Down key is Shift, so that the Ctrl key alone is
/// free to bind.
fn prefs_with_shift_down() -> Prefs {
    let mut prefs = Prefs::default();
    prefs.key_down = Binding::new(0x204, 0);
    prefs
}

fn pending_q() -> PendingBinding {
    PendingBinding { target_id: 0, binding: Binding::new('Q' as u32, 0), conflicting_id: Some(1) }
}

#[test]
fn new_modal_is_hidden() {
    let modal = ConflictModalState::new();
    assert!(!modal.is_visible());
    assert!(modal.pending().is_none());
}

#[test]
fn show_makes_modal_visible() {
    let mut modal = ConflictModalState::new();
    modal.show(pending_q(), "Move Left".to_string(), "Q".to_string());

    assert!(modal.is_visible());
    assert!(modal.pending().is_some());
    assert_eq!(modal.conflict_key_name(), "Move Left");
    assert_eq!(modal.conflict_binding_desc(), "Q");
}

#[test]
fn hide_hides_modal() {
    let mut modal = ConflictModalState::new();
    modal.show(pending_q(), "Move Left".to_string(), "Q".to_string());
    modal.hide_dialog();

    assert!(!modal.is_visible());
    assert!(modal.pending().is_some());
}

#[test]
fn take_pending_removes_binding() {
    let mut modal = ConflictModalState::new();
    modal.show(pending_q(), "Move Left".to_string(), "Q".to_string());
    let taken = modal.take_pending();

    assert!(taken.is_some());
    assert_eq!(taken.unwrap().target_id, 0);
    assert!(modal.pending().is_none());
}

#[test]
fn clear_resets_all_state() {
    let mut modal = ConflictModalState::new();
    modal.show(pending_q(), "Move Left".to_string(), "Q".to_string());
    modal.clear();

    assert!(!modal.is_visible());
    assert!(modal.pending().is_none());
    assert_eq!(modal.conflict_key_name(), "");
    assert_eq!(modal.conflict_binding_desc(), "");
}

#[test]
fn test_key_to_code_letters() {
    assert_eq!(key_to_code(&Key::A), 'A' as u32);
    assert_eq!(key_to_code(&Key::W), 'W' as u32);
    assert_eq!(key_to_code(&Key::Z), 'Z' as u32);
}

#[test]
fn test_key_to_code_numbers() {
    assert_eq!(key_to_code(&Key::Num0), '0' as u32);
    assert_eq!(key_to_code(&Key::Num9), '9' as u32);
}

#[test]
fn test_key_to_code_special() {
    assert_eq!(key_to_code(&Key::ArrowUp), 0x100);
    assert_eq!(key_to_code(&Key::Escape), 0x200);
    assert_eq!(key_to_code(&Key::Space), ' ' as u32);
    assert_eq!(key_to_code(&Key::Enter), 0x203);
    assert_eq!(key_to_code(&Key::Tab), 0x201);
}

#[test]
fn test_binding_label_unbound() {
    assert_eq!(binding_label(&Binding::new(0, 0)), "Unbound");
}

#[test]
fn test_binding_label_simple_key() {
    assert_eq!(binding_label(&Binding::new('W' as u32, 0)), "W");
}

#[test]
fn test_binding_label_with_modifiers() {
    assert_eq!(binding_label(&Binding::new('W' as u32, 1)), "Ctrl+W");
    assert_eq!(binding_label(&Binding::new('W' as u32, 2)), "Shift+W");
    assert_eq!(binding_label(&Binding::new('W' as u32, 7)), "Ctrl+Shift+Alt+W");
}

#[test]
fn test_binding_label_modifier_only() {
    assert_eq!(binding_label(&Binding::new(0x205, 0)), "Ctrl");
    assert_eq!(binding_label(&Binding::new(0x204, 0)), "Shift");
    assert_eq!(binding_label(&Binding::new(0x206, 0)), "Alt");
}

#[test]
fn test_binding_label_special_keys() {
    assert_eq!(binding_label(&Binding::new(0x100, 0)), "ArrowUp");
    assert_eq!(binding_label(&Binding::new(0x200, 0)), "Escape");
    assert_eq!(binding_label(&Binding::new(' ' as u32, 0)), "Spacebar");
}

#[test]
fn test_start_stop_listening() {
    let mut handler = KeybindCaptureHandler::new();
    assert!(!handler.is_listening());

    handler.start_listening(0);
    assert!(handler.is_listening());

    handler.stop_listening();
    assert!(!handler.is_listening());
}

#[test]
fn test_escape_cancels_listening() {
    let mut handler = KeybindCaptureHandler::new();
    let prefs = Prefs::default();

    handler.start_listening(0);
    let (consumed, bindings_changed) = handler.apply_key_code_while_listening(0x200, 0, &prefs);

    assert!(consumed);
    assert!(!handler.is_listening());
    assert!(bindings_changed.is_empty());
}

#[test]
fn test_modifier_only_capture() {
    let mut handler = KeybindCaptureHandler::new();
    let prefs = Prefs::default();

    handler.start_listening(0);
    let (consumed, bindings_changed) = handler.apply_key_code_while_listening(0x206, 0, &prefs);

    assert!(consumed);
    assert!(!handler.is_listening());
    assert_eq!(bindings_changed.len(), 1);

    let (field, binding) = bindings_changed[0];
    assert!(matches!(field, SettingsField::KeyW));
    assert_eq!(binding.code, 0x206);
    assert_eq!(binding.mods, 0);
}

#[test]
fn test_normal_key_capture() {
    let mut handler = KeybindCaptureHandler::new();
    let prefs = Prefs::default();

    handler.start_listening(1);
    let w_code = 'W' as u32;
    let ctrl_mods = 1u8;
    let (consumed, bindings_changed) =
        handler.apply_key_code_while_listening(w_code, ctrl_mods, &prefs);

    assert!(consumed);
    assert!(!handler.is_listening());
    assert_eq!(bindings_changed.len(), 1);

    let (field, binding) = bindings_changed[0];
    assert!(matches!(field, SettingsField::KeyA));
    assert_eq!(binding.code, w_code);
    assert_eq!(binding.mods, ctrl_mods);
}

#[test]
fn test_conflict_detection() {
    let mut handler = KeybindCaptureHandler::new();
    let mut prefs = Prefs::default();
    prefs.key_w = Binding::new('W' as u32, 0);

    handler.start_listening(1);
    let (consumed, bindings_changed) = handler.apply_key_code_while_listening('W' as u32, 0, &prefs);

    assert!(consumed);
    assert!(!handler.is_listening());
    assert!(bindings_changed.is_empty());
    assert!(handler.has_pending_binding());
}

#[test]
fn test_pending_binding_apply() {
    let mut handler = KeybindCaptureHandler::new();
    let mut prefs = Prefs::default();
    prefs.key_w = Binding::new('W' as u32, 0);

    handler.start_listening(1);
    let _ = handler.apply_key_code_while_listening('W' as u32, 0, &prefs);
    assert!(handler.has_pending_binding());

    let bindings_changed = handler.apply_pending();
    assert_eq!(bindings_changed.len(), 2);

    let (field1, binding1) = bindings_changed[0];
    assert!(matches!(field1, SettingsField::KeyW));
    assert_eq!(binding1.code, 0);
    assert_eq!(binding1.mods, 0);

    let (field2, binding2) = bindings_changed[1];
    assert!(matches!(field2, SettingsField::KeyA));
    assert_eq!(binding2.code, 'W' as u32);
    assert_eq!(binding2.mods, 0);
}

#[test]
fn test_binding_label_formatting() {
    assert_eq!(binding_label(&Binding::new(0, 0)), "Unbound");
    assert_eq!(binding_label(&Binding::new('W' as u32, 0)), "W");
    assert_eq!(binding_label(&Binding::new('W' as u32, 1)), "Ctrl+W");
    assert_eq!(binding_label(&Binding::new('W' as u32, 3)), "Ctrl+Shift+W");
    assert_eq!(binding_label(&Binding::new(0x204, 0)), "Shift");
    assert_eq!(binding_label(&Binding::new(0x100, 0)), "ArrowUp");
    assert_eq!(binding_label(&Binding::new(' ' as u32, 0)), "Spacebar");
}

#[test]
fn from_prefs_loads_all_bindings() {
    let prefs = Prefs::default();
    let registry = BindingRegistry::from_prefs(&prefs);

    assert_eq!(registry.get_binding(BindingId::KeyW), prefs.key_w);
    assert_eq!(registry.get_binding(BindingId::KeyA), prefs.key_a);
    assert_eq!(registry.get_binding(BindingId::KeyS), prefs.key_s);
    assert_eq!(registry.get_binding(BindingId::KeyD), prefs.key_d);
    assert_eq!(registry.get_binding(BindingId::KeyUp), prefs.key_up);
    assert_eq!(registry.get_binding(BindingId::KeyDown), prefs.key_down);
}

#[test]
fn write_to_prefs_updates_all_bindings() {
    let mut prefs = Prefs::default();
    let mut registry = BindingRegistry::from_prefs(&prefs);

    registry.update_binding(BindingId::KeyW, Binding::new('Q' as u32, 0));
    registry.update_binding(BindingId::KeyA, Binding::new('E' as u32, 0));
    registry.write_to_prefs(&mut prefs);

    assert_eq!(prefs.key_w, Binding::new('Q' as u32, 0));
    assert_eq!(prefs.key_a, Binding::new('E' as u32, 0));
}

#[test]
fn find_conflict_detects_duplicate_bindings() {
    let mut prefs = Prefs::default();
    prefs.key_w = Binding::new('W' as u32, 0);
    prefs.key_a = Binding::new('A' as u32, 0);
    let registry = BindingRegistry::from_prefs(&prefs);

    let conflict = registry.find_conflict(&Binding::new('W' as u32, 0), BindingId::KeyS);
    assert_eq!(conflict, Some(BindingId::KeyW));

    let conflict = registry.find_conflict(&Binding::new('A' as u32, 0), BindingId::KeyS);
    assert_eq!(conflict, Some(BindingId::KeyA));
}

#[test]
fn find_conflict_ignores_exclude_id() {
    let mut prefs = Prefs::default();
    prefs.key_w = Binding::new('W' as u32, 0);
    let registry = BindingRegistry::from_prefs(&prefs);

    let conflict = registry.find_conflict(&Binding::new('W' as u32, 0), BindingId::KeyW);
    assert_eq!(conflict, None);
}

#[test]
fn find_conflict_returns_none_for_unique_binding() {
    let prefs = Prefs::default();
    let registry = BindingRegistry::from_prefs(&prefs);

    let conflict = registry.find_conflict(&Binding::new('Q' as u32, 0), BindingId::KeyW);
    assert_eq!(conflict, None);
}

#[test]
fn find_conflict_ignores_unbound_keys() {
    let prefs = Prefs::default();
    let registry = BindingRegistry::from_prefs(&prefs);

    let conflict = registry.find_conflict(&Binding::new(0, 0), BindingId::KeyW);
    assert_eq!(conflict, None);
}

#[test]
fn update_binding_modifies_registry() {
    let prefs = Prefs::default();
    let mut registry = BindingRegistry::from_prefs(&prefs);

    let new_binding = Binding::new('Q' as u32, 1);
    registry.update_binding(BindingId::KeyW, new_binding);

    assert_eq!(registry.get_binding(BindingId::KeyW), new_binding);
}

#[test]
fn iter_returns_all_bindings_in_order() {
    let prefs = Prefs::default();
    let registry = BindingRegistry::from_prefs(&prefs);

    let bindings: Vec<_> = registry.iter().iter().collect();
    assert_eq!(bindings.len(), 6);

    assert_eq!(bindings[0].0, BindingId::KeyW);
    assert_eq!(bindings[1].0, BindingId::KeyA);
    assert_eq!(bindings[2].0, BindingId::KeyS);
    assert_eq!(bindings[3].0, BindingId::KeyD);
    assert_eq!(bindings[4].0, BindingId::KeyUp);
    assert_eq!(bindings[5].0, BindingId::KeyDown);
}

#[test]
fn new_state_has_no_dirty_fields() {
    let state = SettingsState::from_prefs(Prefs::default());
    assert!(!state.is_dirty());
}

#[test]
fn mark_dirty_sets_dirty_flag() {
    let mut state = SettingsState::from_prefs(Prefs::default());
    assert!(!state.is_dirty());

    state.mark_dirty(SettingsField::KeyW);
    assert!(state.is_dirty());
    assert!(state.is_field_dirty(SettingsField::KeyW));
    assert!(!state.is_field_dirty(SettingsField::KeyA));
}

#[test]
fn revert_changes_clears_dirty_fields() {
    let mut state = SettingsState::from_prefs(Prefs::default());
    state.staged_mut().set_key_w(Binding::new('Q' as u32, 0));
    state.mark_dirty(SettingsField::KeyW);
    assert!(state.is_dirty());

    state.revert_changes();

    assert!(!state.is_dirty());
    assert_eq!(state.staged().key_w(), state.prefs().key_w());
}

#[test]
fn apply_changes_clears_dirty_fields() {
    let mut state = SettingsState::from_prefs(Prefs::default());
    state.staged_mut().set_key_w(Binding::new('Q' as u32, 0));
    state.mark_dirty(SettingsField::KeyW);
    assert!(state.is_dirty());

    let result = state.apply_changes(Ok::<(), String>(()));
    assert!(result.is_ok());

    assert!(!state.is_dirty());
    assert_eq!(state.prefs().key_w(), state.staged().key_w());
}

#[test]
fn failed_save_keeps_changes_staged() {
    let mut state = SettingsState::from_prefs(Prefs::default());
    state.set_staged_binding(SettingsField::KeyW, Binding::new('Q' as u32, 0));

    let result = state.apply_changes(Err::<(), String>("disk full".to_string()));
    assert_eq!(result, Err("disk full".to_string()));

    assert!(state.is_dirty());
    assert_eq!(state.prefs().key_w(), Binding::new('W' as u32, 0));
    assert_eq!(state.staged().key_w(), Binding::new('Q' as u32, 0));
}

#[test]
fn set_staged_binding_marks_dirty() {
    let mut state = SettingsState::from_prefs(Prefs::default());
    let new_binding = Binding::new('Q' as u32, 1);
    state.set_staged_binding(SettingsField::KeyW, new_binding);

    assert!(state.is_dirty());
    assert!(state.is_field_dirty(SettingsField::KeyW));
    assert_eq!(state.staged().key_w(), new_binding);
}

#[test]
fn get_staged_binding_returns_correct_value() {
    let mut state = SettingsState::from_prefs(Prefs::default());
    let new_binding = Binding::new('Q' as u32, 1);
    state.set_staged_binding(SettingsField::KeyA, new_binding);

    assert_eq!(state.get_staged_binding(SettingsField::KeyA), new_binding);
}

#[test]
fn is_binding_modified_detects_changes() {
    let prefs = Prefs::default();
    let mut state = SettingsState::from_prefs(prefs);

    assert!(!state.is_binding_modified(SettingsField::KeyW));
    state.set_staged_binding(SettingsField::KeyW, Binding::new('Q' as u32, 0));

    assert!(state.is_binding_modified(SettingsField::KeyW));
    assert!(!state.is_binding_modified(SettingsField::KeyA));
}

#[test]
fn from_prefs_creates_clean_state() {
    let prefs = Prefs::default().with_key_w(Binding::new('Q' as u32, 0));
    let state = SettingsState::from_prefs(prefs);

    assert!(!state.is_dirty());
    assert_eq!(state.prefs().key_w(), prefs.key_w());
    assert_eq!(state.staged().key_w(), prefs.key_w());
}

#[test]
fn non_binding_fields_handled_gracefully() {
    let mut state = SettingsState::from_prefs(Prefs::default());
    state.set_staged_binding(SettingsField::MouseSensitivity, Binding::new(0, 0));

    let binding = state.get_staged_binding(SettingsField::AudioMusic);
    assert_eq!(binding, Binding::new(0, 0));
}

#[test]
fn apply_binding_changes_stages_in_order() {
    let mut state = SettingsState::from_prefs(Prefs::default());
    let changes = vec![
        (SettingsField::KeyW, Binding::new(0, 0)),
        (SettingsField::KeyA, Binding::new('W' as u32, 0)),
    ];
    state.apply_binding_changes(&changes);
    assert_eq!(state.get_staged_binding(SettingsField::KeyW), Binding::new(0, 0));
    assert_eq!(state.get_staged_binding(SettingsField::KeyA), Binding::new('W' as u32, 0));
    assert!(state.is_field_dirty(SettingsField::KeyW));
    assert!(state.is_field_dirty(SettingsField::KeyA));
    assert!(!state.is_field_dirty(SettingsField::KeyS));
}

#[test]
fn mod_modifier_only_capture_applies() {
    let mut menu = SettingsMenu::with_prefs(prefs_with_shift_down());
    menu.start_listening(0);

    let applied = menu.capture_modifier_if_listening(1);

    assert!(applied, "modifier capture should apply");
    assert!(!menu.is_listening(), "should stop listening after capture");
    assert_eq!(menu.get_staged_binding(0), Binding::new(0x205, 0));
}

#[test]
fn ctrl_alone_conflicts_with_default_move_down() {
    let mut menu = SettingsMenu::with_prefs(Prefs::default());
    menu.start_listening(0);
    assert!(menu.capture_modifier_if_listening(1));
    assert!(menu.conflict_modal().is_visible());
    assert_eq!(menu.conflict_modal().conflict_key_name(), "Move Down");
    assert!(menu.is_listening());
    assert_eq!(menu.get_staged_binding(0), Binding::new('W' as u32, 0));
}

#[test]
fn mod_modifier_only_conflict_shows_modal() {
    let prefs = Prefs::default().with_key_a(Binding::new(0x205, 0));
    let mut menu = SettingsMenu::with_prefs(prefs);
    menu.start_listening(0);

    let applied = menu.capture_modifier_if_listening(1);

    assert!(applied, "modifier conflict should be processed");
    assert!(
        menu.conflict_modal().is_visible(),
        "conflict modal should be visible when conflict is detected"
    );
    assert_eq!(menu.conflict_modal().conflict_key_name(), "Move Left");
    assert_eq!(menu.conflict_modal().conflict_binding_desc(), "Ctrl");
}

#[test]
fn mod_modifier_multiple_mods_ignored() {
    let mut menu = SettingsMenu::with_prefs(Prefs::default());
    menu.start_listening(0);

    let applied = menu.capture_modifier_if_listening(3);

    assert!(!applied, "combined modifiers should not be captured");
    assert!(menu.is_listening(), "still listening after ignored multi-modifier");
}

#[test]
fn frame_capture_takes_single_modifier() {
    let mut menu = SettingsMenu::with_prefs(prefs_with_shift_down());
    menu.start_listening(0);

    menu.handle_key_capture(1, &[]);

    assert!(menu.get_staged_binding(0) == Binding::new(0x205, 0));
    assert!(!menu.is_listening());
}

#[test]
fn key_event_capture_uses_modifiers() {
    let mut menu = SettingsMenu::with_prefs(Prefs::default());
    menu.start_listening(2);
    let events = [KeyEvent {
        key: Key::Q,
        pressed: true,
        modifiers: Modifiers { ctrl: true, shift: false, alt: false },
    }];
    menu.handle_key_capture(0, &events);
    assert_eq!(menu.get_staged_binding(2), Binding::new('Q' as u32, 1));
    assert!(!menu.is_listening());
    assert!(menu.has_unsaved_changes());
}

#[test]
fn binding_conflict_detection_works() {
    let mut menu = SettingsMenu::with_prefs(Prefs::default());

    menu.start_listening(0);
    assert!(menu.is_listening());

    let consumed = menu.apply_key_code_while_listening(87, 0);
    assert!(consumed, "binding should have been consumed");
    assert!(!menu.is_listening(), "should stop listening after binding");

    menu.start_listening(1);
    let consumed = menu.apply_key_code_while_listening(87, 0);
    assert!(consumed, "conflicting binding should be consumed");

    assert!(menu.conflict_modal().is_visible(), "conflict modal should be shown");
    assert!(!menu.is_listening(), "should stop listening when conflict detected");

    assert_eq!(
        menu.conflict_modal().conflict_key_name(),
        "Move Forward",
        "should identify conflicting key"
    );
    assert!(
        !menu.conflict_modal().conflict_binding_desc().is_empty(),
        "should have binding description"
    );
}

#[test]
fn escape_cancels_binding_listen() {
    let mut menu = SettingsMenu::with_prefs(Prefs::default());

    menu.start_listening(0);
    assert!(menu.is_listening());

    let consumed = menu.apply_key_code_while_listening(0x200, 0);
    assert!(consumed, "escape should be consumed");
    assert!(!menu.is_listening(), "should stop listening after escape");
    assert!(!menu.conflict_modal().is_visible(), "should not show conflict modal");
}

#[test]
fn tab_switching_works() {
    let mut menu = SettingsMenu::with_prefs(Prefs::default());

    assert_eq!(menu.active_tab(), SettingsTab::Controls);
    menu.set_active_tab(SettingsTab::Audio);
    assert_eq!(menu.active_tab(), SettingsTab::Audio);
    menu.set_active_tab(SettingsTab::Controls);
    assert_eq!(menu.active_tab(), SettingsTab::Controls);
}

#[test]
fn staged_changes_tracked_correctly() {
    let mut menu = SettingsMenu::with_prefs(Prefs::default());

    assert!(!menu.has_unsaved_changes());
    menu.start_listening(0);
    menu.apply_key_code_while_listening(87, 0);
    assert!(menu.has_unsaved_changes());

    menu.apply_staged_changes(Ok::<(), String>(()));
    assert!(!menu.has_unsaved_changes());
}

#[test]
fn revert_changes_works() {
    let mut menu = SettingsMenu::with_prefs(Prefs::default());

    let original_binding = menu.get_staged_binding(0);
    menu.start_listening(0);
    menu.apply_key_code_while_listening('Q' as u32, 0);

    let new_binding = menu.get_staged_binding(0);
    assert_ne!(original_binding, new_binding);
    assert!(menu.has_unsaved_changes());

    menu.revert_staged_changes();
    assert_eq!(menu.get_staged_binding(0), original_binding);
    assert!(!menu.has_unsaved_changes());
}

#[test]
fn confirming_conflict_replaces_binding() {
    let mut menu = SettingsMenu::with_prefs(Prefs::default());

    menu.start_listening(0);
    menu.apply_key_code_while_listening(87, 0);
    let key_w_binding = menu.get_staged_binding(0);

    menu.start_listening(1);
    menu.apply_key_code_while_listening(87, 0);
    assert!(menu.conflict_modal().is_visible());

    menu.confirm_pending_binding();
    assert!(!menu.conflict_modal().is_visible());
    assert_eq!(menu.get_staged_binding(1), key_w_binding);
    assert_eq!(menu.get_staged_binding(0), Binding::new(0, 0));
}

#[test]
fn canceling_conflict_preserves_original() {
    let mut menu = SettingsMenu::with_prefs(Prefs::default());

    menu.start_listening(0);
    menu.apply_key_code_while_listening(87, 0);
    let key_w_binding = menu.get_staged_binding(0);

    menu.start_listening(1);
    menu.apply_key_code_while_listening(65, 0);
    let key_a_binding = menu.get_staged_binding(1);

    menu.start_listening(1);
    menu.apply_key_code_while_listening(87, 0);
    assert!(menu.conflict_modal().is_visible());

    menu.cancel_pending_binding();
    assert!(!menu.conflict_modal().is_visible());
    assert_eq!(menu.get_staged_binding(0), key_w_binding);
    assert_eq!(menu.get_staged_binding(1), key_a_binding);
}

#[test]
fn multiple_unique_bindings_work() {
    let mut menu = SettingsMenu::with_prefs(Prefs::default());
    let bindings = [87, 65, 83, 68, 38, 40];

    for (id, &code) in bindings.iter().enumerate() {
        menu.start_listening(id);
        menu.apply_key_code_while_listening(code, 0);
        assert!(!menu.conflict_modal().is_visible(), "unique bindings should not conflict");
    }

    for (id, &code) in bindings.iter().enumerate() {
        let binding = menu.get_staged_binding(id);
        assert_eq!(binding.code, code, "binding {} should have correct code", id);
    }
}

#[test]
fn modifier_keys_handled() {
    let mut menu = SettingsMenu::with_prefs(Prefs::default());

    menu.start_listening(0);
    menu.apply_key_code_while_listening(87, 1);
    let binding = menu.get_staged_binding(0);
    assert_eq!(binding.code, 87);
    assert_eq!(binding.mods, 1, "should have Ctrl modifier");

    menu.start_listening(1);
    menu.apply_key_code_while_listening(65, 3);
    let binding = menu.get_staged_binding(1);
    assert_eq!(binding.code, 65);
    assert_eq!(binding.mods, 3, "should have Ctrl+Shift modifiers");
}

#[test]
fn take_pending_modal_hands_out_the_dialog() {
    let mut menu = SettingsMenu::with_prefs(Prefs::default());
    assert!(menu.take_pending_modal().is_none());

    menu.start_listening(1);
    menu.apply_key_code_while_listening('W' as u32, 2);
    menu.start_listening(3);
    menu.apply_key_code_while_listening('W' as u32, 2);
    let modal = menu.take_pending_modal().expect("conflict dialog");
    assert_eq!(modal.title(), "Keybind Conflict");
    assert_eq!(modal.conflicting_key(), "Move Left");
    assert_eq!(modal.binding_description(), "Shift+W");
    assert_eq!(modal.usage_line(), "The binding 'Shift+W' is currently used by:");
    assert_eq!(modal.unbind_warning(), "'Move Left' will be unbound if you proceed.");
    assert!(!menu.conflict_modal().is_visible());
}

#[test]
fn settings_screen_name_and_raw_input() {
    let mut menu = SettingsMenu::with_prefs(Prefs::default());
    assert_eq!(menu.name(), "settings");
    assert!(!menu.captures_raw_input());
    menu.start_listening(4);
    assert!(menu.captures_raw_input());
    assert!(menu.is_listening_for(4));
    assert!(!menu.is_listening_for(3));
    assert_eq!(menu.get_staged_binding(6), Binding::new(0, 0));
}

#[test]
fn window_mode_labels() {
    assert_eq!(mode_label(WindowMode::Windowed), "Windowed");
    assert_eq!(mode_label(WindowMode::Fullscreen), "Fullscreen");
    assert_eq!(mode_label(WindowMode::Borderless), "Borderless");
}

#[test]
fn registry_written_back_leaves_prefs_unchanged() {
    let mut prefs = Prefs::default();
    prefs.key_up = Binding::new(0x100, 2);
    let before = prefs;
    BindingRegistry::from_prefs(&prefs).write_to_prefs(&mut prefs);
    assert_eq!(prefs, before);
}

#[test]
fn confirmed_conflict_leaves_bindings_distinct() {
    let mut menu = SettingsMenu::with_prefs(Prefs::default());
    menu.start_listening(3);
    menu.apply_key_code_while_listening('A' as u32, 0);
    assert!(menu.conflict_modal().is_visible());
    menu.confirm_pending_binding();
    let codes: Vec<Binding> = (0..6).map(|id| menu.get_staged_binding(id)).collect();
    for i in 0..6 {
        for j in 0..6 {
            if i != j && codes[i].code != 0 {
                assert_ne!(codes[i], codes[j]);
            }
        }
    }
    assert_eq!(menu.get_staged_binding(3), Binding::new('A' as u32, 0));
    assert_eq!(menu.get_staged_binding(1), Binding::new(0, 0));
}

fn dialog_agrees_with_pending(h: &KeybindCaptureHandler) -> bool {
    h.has_pending_binding() == h.conflict_modal().pending().is_some()
        && h.has_pending_binding() == h.conflict_modal().is_visible()
}

#[test]
fn dialog_is_shown_exactly_while_a_binding_is_pending() {
    let mut handler = KeybindCaptureHandler::new();
    let mut prefs = Prefs::default();
    prefs.key_w = Binding::new('W' as u32, 0);
    assert!(dialog_agrees_with_pending(&handler));
    assert!(!handler.has_pending_binding());

    // A conflicting key opens the dialog with the binding pending.
    handler.start_listening(1);
    let _ = handler.apply_key_code_while_listening('W' as u32, 0, &prefs);
    assert!(handler.has_pending_binding());
    assert!(dialog_agrees_with_pending(&handler));

    // Confirming clears both.
    let _ = handler.apply_pending();
    assert!(!handler.has_pending_binding());
    assert!(dialog_agrees_with_pending(&handler));

    // Cancelling clears both.
    handler.start_listening(1);
    let _ = handler.apply_key_code_while_listening('W' as u32, 0, &prefs);
    assert!(handler.has_pending_binding());
    handler.cancel_pending_binding();
    assert!(!handler.has_pending_binding());
    assert!(dialog_agrees_with_pending(&handler));

    // Escape while listening clears both.
    handler.start_listening(1);
    let _ = handler.capture_modifier_if_listening(0, &prefs);
    let _ = handler.apply_key_code_while_listening(0x200, 0, &prefs);
    assert!(dialog_agrees_with_pending(&handler));

    // Handing out the dialog leaves both cleared behind.
    handler.start_listening(1);
    let _ = handler.apply_key_code_while_listening('W' as u32, 0, &prefs);
    let taken = handler.take_conflict_modal();
    assert!(taken.is_some());
    assert!(!handler.has_pending_binding());
    assert!(dialog_agrees_with_pending(&handler));

    // A key that conflicts with nothing leaves the dialog closed.
    handler.start_listening(1);
    let (_, changes) = handler.apply_key_code_while_listening('K' as u32, 0, &prefs);
    assert_eq!(changes.len(), 1);
    assert!(!handler.has_pending_binding());
    assert!(dialog_agrees_with_pending(&handler));
}

use moho_ui::modal::ModalResult;

#[test]
fn modal_answer_is_routed_to_confirm_or_cancel() {
    let prefs = Prefs::default().with_key_a(Binding::new(0x205, 0));

    // No answer yet: the dialog stays.
    let mut menu = SettingsMenu::with_prefs(prefs);
    menu.start_listening(0);
    menu.capture_modifier_if_listening(1);
    menu.on_modal_result(ModalResult::NoChoice);
    assert!(menu.conflict_modal().is_visible());

    // Confirming applies the binding and closes the dialog.
    menu.on_modal_result(ModalResult::Confirm);
    assert!(!menu.conflict_modal().is_visible());
    assert_eq!(menu.get_staged_binding(0), Binding::new(0x205, 0));
    assert_eq!(menu.get_staged_binding(1), Binding::new(0, 0));

    // Cancelling drops the binding and closes the dialog.
    let mut menu = SettingsMenu::with_prefs(prefs);
    menu.start_listening(0);
    menu.capture_modifier_if_listening(1);
    menu.on_modal_result(ModalResult::Cancel);
    assert!(!menu.conflict_modal().is_visible());
    assert_eq!(menu.get_staged_binding(0), prefs.key_w);
    assert!(!menu.has_unsaved_changes());
}
