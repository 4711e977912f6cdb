use moho_ui::prefs::key_names::parse_key_name;
use moho_ui::prefs::parser::{binding_label, binding_to_string, parse_binding};
use moho_ui::prefs::{Binding, Prefs};

#[test]
fn test_parse_arrow_keys() {
    assert_eq!(parse_key_name("ArrowUp", 0), 0x100);
    assert_eq!(parse_key_name("UP", 0), 0x100);
    assert_eq!(parse_key_name("ArrowDown", 0), 0x101);
    assert_eq!(parse_key_name("DOWN", 0), 0x101);
    assert_eq!(parse_key_name("ArrowLeft", 0), 0x102);
    assert_eq!(parse_key_name("LEFT", 0), 0x102);
    assert_eq!(parse_key_name("ArrowRight", 0), 0x103);
    assert_eq!(parse_key_name("RIGHT", 0), 0x103);
}

#[test]
fn key_names_test_parse_special_keys() {
    assert_eq!(parse_key_name("Escape", 0), 0x200);
    assert_eq!(parse_key_name("ESC", 0), 0x200);
    assert_eq!(parse_key_name("Tab", 0), 0x201);
    assert_eq!(parse_key_name("Backspace", 0), 0x202);
    assert_eq!(parse_key_name("Enter", 0), 0x203);
    assert_eq!(parse_key_name("RETURN", 0), 0x203);
    assert_eq!(parse_key_name("Spacebar", 0), ' ' as u32);
    assert_eq!(parse_key_name("SPACE", 0), ' ' as u32);
}

#[test]
fn test_parse_letters() {
    assert_eq!(parse_key_name("A", 0), 'A' as u32);
    assert_eq!(parse_key_name("W", 0), 'W' as u32);
    assert_eq!(parse_key_name("Z", 0), 'Z' as u32);
    assert_eq!(parse_key_name("w", 0), 'W' as u32);
    assert_eq!(parse_key_name("a", 0), 'A' as u32);
}

#[test]
fn test_parse_numbers() {
    assert_eq!(parse_key_name("0", 0), '0' as u32);
    assert_eq!(parse_key_name("5", 0), '5' as u32);
    assert_eq!(parse_key_name("9", 0), '9' as u32);
}

#[test]
fn test_parse_punctuation() {
    assert_eq!(parse_key_name(".", 0), '.' as u32);
    assert_eq!(parse_key_name(",", 0), ',' as u32);
    assert_eq!(parse_key_name("/", 0), '/' as u32);
}

#[test]
fn test_parse_modifier_keys() {
    assert_eq!(parse_key_name("Shift", 0), 0x204);
    assert_eq!(parse_key_name("Ctrl", 0), 0x205);
    assert_eq!(parse_key_name("CONTROL", 0), 0x205);
    assert_eq!(parse_key_name("Alt", 0), 0x206);
}

#[test]
fn test_parse_unknown_returns_fallback() {
    assert_eq!(parse_key_name("unknown_key", 42), 42);
    assert_eq!(parse_key_name("", 99), 99);
}

#[test]
fn test_parse_numeric_string() {
    assert_eq!(parse_key_name("256", 0), 256);
    assert_eq!(parse_key_name("0x100", 0), 0);
}

#[test]
fn test_case_insensitivity() {
    assert_eq!(parse_key_name("arrowup", 0), 0x100);
    assert_eq!(parse_key_name("ARROWUP", 0), 0x100);
    assert_eq!(parse_key_name("ArrowUp", 0), 0x100);
    assert_eq!(parse_key_name("escape", 0), 0x200);
    assert_eq!(parse_key_name("ESCAPE", 0), 0x200);
}

#[test]
fn test_default_prefs() {
    let prefs = Prefs::default();
    assert_eq!(prefs.key_w().code, 'W' as u32);
    assert_eq!(f32::from_bits(prefs.mouse_sensitivity_bits()), 1.0);
    assert!(prefs.input_filtering_enabled());
}

#[test]
fn test_binding_new() {
    let binding = Binding::new('A' as u32, 1);
    assert_eq!(binding.code, 'A' as u32);
    assert_eq!(binding.mods, 1);
}

#[test]
fn test_binding_default() {
    let binding = Binding::default();
    assert_eq!(binding.code, 'W' as u32);
    assert_eq!(binding.mods, 0);
}

#[test]
fn test_parse_simple_key() {
    let fallback = Binding::default();
    let binding = parse_binding("W", fallback);
    assert_eq!(binding.code, 'W' as u32);
    assert_eq!(binding.mods, 0);
}

#[test]
fn test_parse_ctrl_key() {
    let fallback = Binding::default();
    let binding = parse_binding("Ctrl+W", fallback);
    assert_eq!(binding.code, 'W' as u32);
    assert_eq!(binding.mods, 1);
}

#[test]
fn test_parse_shift_key() {
    let fallback = Binding::default();
    let binding = parse_binding("Shift+A", fallback);
    assert_eq!(binding.code, 'A' as u32);
    assert_eq!(binding.mods, 2);
}

#[test]
fn test_parse_alt_key() {
    let fallback = Binding::default();
    let binding = parse_binding("Alt+D", fallback);
    assert_eq!(binding.code, 'D' as u32);
    assert_eq!(binding.mods, 4);
}

#[test]
fn test_parse_multiple_modifiers() {
    let fallback = Binding::default();
    let binding = parse_binding("Ctrl+Shift+W", fallback);
    assert_eq!(binding.code, 'W' as u32);
    assert_eq!(binding.mods, 3);
}

#[test]
fn parser_test_parse_special_keys() {
    let fallback = Binding::default();

    let up = parse_binding("ArrowUp", fallback);
    assert_eq!(up.code, 0x100);

    let down = parse_binding("ArrowDown", fallback);
    assert_eq!(down.code, 0x101);

    let space = parse_binding("Spacebar", fallback);
    assert_eq!(space.code, ' ' as u32);

    let esc = parse_binding("Escape", fallback);
    assert_eq!(esc.code, 0x200);
}

#[test]
fn test_parse_modifier_only() {
    let fallback = Binding::default();
    let binding = parse_binding("Shift", fallback);
    assert_eq!(binding.code, 0);
    assert_eq!(binding.mods, 2);
}

#[test]
fn test_parse_unbound() {
    let fallback = Binding::new('W' as u32, 0);
    let binding = parse_binding("Unbound", fallback);
    assert_eq!(binding.code, 0);
    assert_eq!(binding.mods, 0);
}

#[test]
fn test_parse_empty_returns_fallback() {
    let fallback = Binding::new('X' as u32, 1);
    let binding = parse_binding("", fallback);
    assert_eq!(binding.code, 'X' as u32);
    assert_eq!(binding.mods, 1);
}

#[test]
fn test_parse_case_insensitive() {
    let fallback = Binding::default();

    let ctrl = parse_binding("ctrl+w", fallback);
    assert_eq!(ctrl.code, 'W' as u32);
    assert_eq!(ctrl.mods, 1);

    let alt = parse_binding("ALT+D", fallback);
    assert_eq!(alt.code, 'D' as u32);
    assert_eq!(alt.mods, 4);
}

#[test]
fn unknown_key_part_gives_the_fallback() {
    let fallback = Binding::new('X' as u32, 0);
    assert_eq!(parse_binding("Ctrl+Foo", fallback), fallback);
    assert_eq!(parse_binding("Foo", fallback), fallback);
    let other = Binding::new(0x200, 4);
    assert_eq!(parse_binding("Shift + NoSuchKey", other), other);
    // A key part that does name a key keeps its modifiers.
    assert_eq!(parse_binding("Ctrl+300", fallback), Binding::new(300, 1));
}

#[test]
fn binding_text_is_read_without_regard_to_case() {
    let fallback = Binding::new('Q' as u32, 2);
    for s in ["Ctrl+W", "shift+ArrowUp", "Alt+Escape", "unbound", "Ctrl+Foo", "  control + spacebar ", "Shift"] {
        let plain = parse_binding(s, fallback);
        assert_eq!(parse_binding(&s.to_ascii_uppercase(), fallback), plain);
        assert_eq!(parse_binding(&s.to_ascii_lowercase(), fallback), plain);
    }
    assert_eq!(parse_binding("ctrl+w", Binding::default()), Binding::new('W' as u32, 1));
    assert_eq!(parse_binding("ALT+D", Binding::default()), Binding::new('D' as u32, 4));
    assert_eq!(parse_binding("SHIFT+ARROWUP", fallback), Binding::new(0x100, 2));
}

#[test]
fn key_names_are_read_without_regard_to_case() {
    for s in ["ArrowLeft", "Backspace", "q", "Return", "nothing"] {
        let plain = parse_key_name(s, 7);
        assert_eq!(parse_key_name(&s.to_ascii_uppercase(), 7), plain);
        assert_eq!(parse_key_name(&s.to_ascii_lowercase(), 7), plain);
    }
}

#[test]
fn test_binding_to_string_simple() {
    let binding = Binding::new('W' as u32, 0);
    assert_eq!(binding_to_string(&binding), "W");
}

#[test]
fn test_binding_to_string_ctrl() {
    let binding = Binding::new('W' as u32, 1);
    assert_eq!(binding_to_string(&binding), "Ctrl+W");
}

#[test]
fn test_binding_to_string_shift() {
    let binding = Binding::new('A' as u32, 2);
    assert_eq!(binding_to_string(&binding), "Shift+A");
}

#[test]
fn test_binding_to_string_alt() {
    let binding = Binding::new('D' as u32, 4);
    assert_eq!(binding_to_string(&binding), "Alt+D");
}

#[test]
fn test_binding_to_string_multiple_mods() {
    let binding = Binding::new('W' as u32, 3);
    assert_eq!(binding_to_string(&binding), "Ctrl+Shift+W");
}

#[test]
fn test_binding_to_string_special_keys() {
    let up = Binding::new(0x100, 0);
    assert_eq!(binding_to_string(&up), "ArrowUp");

    let space = Binding::new(' ' as u32, 0);
    assert_eq!(binding_to_string(&space), "Spacebar");

    let esc = Binding::new(0x200, 0);
    assert_eq!(binding_to_string(&esc), "Escape");
}

#[test]
fn test_binding_to_string_modifier_only() {
    let shift = Binding::new(0, 2);
    assert_eq!(binding_to_string(&shift), "Shift");

    let ctrl_alt = Binding::new(0, 5);
    assert_eq!(binding_to_string(&ctrl_alt), "Ctrl+Alt");
}

#[test]
fn test_binding_to_string_unbound() {
    let binding = Binding::new(0, 0);
    assert_eq!(binding_to_string(&binding), "Unbound");
}

#[test]
fn test_roundtrip_parsing() {
    let original = Binding::new('W' as u32, 1);
    let string = binding_to_string(&original);
    let parsed = parse_binding(&string, Binding::default());
    assert_eq!(parsed, original);
}

#[test]
fn test_roundtrip_special_keys() {
    let original = Binding::new(0x100, 3);
    let string = binding_to_string(&original);
    let parsed = parse_binding(&string, Binding::default());
    assert_eq!(parsed, original);
}

#[test]
fn binding_label_matches_saved_text_for_plain_keys() {
    for code in ['W' as u32, 0x100, 0x203, ' ' as u32] {
        for mods in 0u8..8 {
            let b = Binding::new(code, mods);
            assert_eq!(binding_label(&b), binding_to_string(&b));
        }
    }
}

#[test]
fn round_trip_holds_for_keys_that_round_trip() {
    for code in ['A' as u32, 'Z' as u32, '5' as u32, '/' as u32, 0x101, 0x102, 0x201, 0x202] {
        for mods in 0u8..8 {
            let b = Binding::new(code, mods);
            let parsed = parse_binding(&binding_to_string(&b), Binding::new('Q' as u32, 7));
            assert_eq!(parsed, b);
        }
    }
}

#[test]
fn modifier_key_alone_does_not_round_trip() {
    let shift_key = Binding::new(0x204, 0);
    assert_eq!(binding_to_string(&shift_key), "Shift");
    assert_eq!(parse_binding("Shift", Binding::default()), Binding::new(0, 2));
}

use moho_ui::prefs::ini_file::{ini_setting, ini_text_is_safe, prefs_setting};
use moho_ui::prefs::PrefsFloatTexts;

fn float_texts() -> PrefsFloatTexts {
    PrefsFloatTexts {
        mouse_sensitivity: "1.5".to_string(),
        sound_effect_volume: "7.0".to_string(),
        music_volume: "5.0".to_string(),
        ui_volume: "8.0".to_string(),
        voice_volume: "7.0".to_string(),
    }
}

#[test]
fn prefs_file_text_round_trips() {
    let mut p = Prefs::default();
    p.key_w = Binding::new('Q' as u32, 1);
    p.key_up = Binding::new(0x100, 6);
    p.input_filtering_enabled = false;
    p.set_shadow_quality(1);
    let text = p.ini_text(&float_texts());
    assert!(ini_text_is_safe(&text));
    let loaded = Prefs::from_ini(&text);
    assert_eq!(loaded.key_w, p.key_w);
    assert_eq!(loaded.key_up, p.key_up);
    // The Ctrl and Shift keys alone are saved as "Ctrl" and "Shift", which
    // read back as the modifier-only bindings.
    assert_eq!(loaded.key_down, Binding::new(0, 1));
    assert_eq!(loaded.key_sprint, Binding::new(0, 2));
    assert!(!loaded.input_filtering_enabled);
    assert_eq!(loaded.shadow_quality(), 1);
    assert_eq!(loaded.ssao_quality(), 3);
    assert_eq!(prefs_setting(&text, "mouse_sensitivity"), Some("1.5".to_string()));
    assert_eq!(ini_setting(&text, "audio", "music_volume"), Some("5.0".to_string()));
}

#[test]
fn prefs_file_text_layout() {
    let text = Prefs::default().ini_text(&float_texts());
    assert!(text.starts_with("[prefs]\nkey_w=W\nkey_a=A\nkey_s=S\nkey_d=D\nkey_up=Spacebar\nkey_down=Ctrl\nkey_sprint=Shift\n"));
    assert!(text.ends_with("\n[graphics]\nshadow_quality=3\nssao_quality=3\n"));
}

#[test]
fn prefs_from_ini_reads_values_and_defaults() {
    let text = "[prefs]\nkey_w = ctrl+q\ninput_filtering_enabled = TRUE\n[graphics]\nshadow_quality = nine\nssao_quality = 2\n";
    let p = Prefs::from_ini(text);
    assert_eq!(p.key_w, Binding::new('Q' as u32, 1));
    assert_eq!(p.key_a, Binding::new('A' as u32, 0));
    assert!(p.input_filtering_enabled);
    assert_eq!(p.shadow_quality(), 3);
    assert_eq!(p.ssao_quality(), 2);
    let keys_before_sections = "key_s=Z\n";
    assert_eq!(Prefs::from_ini(keys_before_sections).key_s, Binding::new('Z' as u32, 0));
}

#[test]
fn reversed_section_brackets_are_rejected() {
    assert!(!ini_text_is_safe("]x[\n"));
    assert!(ini_text_is_safe("[ok]\n; ]comment[\n"));
}

#[test]
fn quality_setters_cap_at_ultra() {
    let mut p = Prefs::default();
    p.set_shadow_quality(9);
    p.set_ssao_quality(2);
    assert_eq!(p.shadow_quality(), 4);
    assert_eq!(p.ssao_quality(), 2);
}

#[test]
fn loaded_quality_levels_are_capped_at_ultra() {
    let p = Prefs::from_ini("[graphics]\nshadow_quality=9\nssao_quality=7\n");
    assert_eq!(p.shadow_quality(), 4);
    assert_eq!(p.ssao_quality(), 4);
    let q = Prefs::from_ini("[graphics]\nshadow_quality=4\nssao_quality=0\n");
    assert_eq!(q.shadow_quality(), 4);
    assert_eq!(q.ssao_quality(), 0);
}
