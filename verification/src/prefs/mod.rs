//! Key bindings and user preferences.

pub mod key_names;
pub mod parser;
pub mod ini_file;

pub use key_names::parse_key_name;
pub use parser::{binding_to_string, parse_binding};

use crate::text;
use crate::text::{parse_u32_chars, push_str, str_chars};
use ini_file::{ini_setting, prefs_setting};
use vstd::prelude::*;

verus! {

/// A numeric key binding: key code and modifier bits.
/// Modifier bits: bit 0 = Ctrl, bit 1 = Shift, bit 2 = Alt.
#[derive(Copy, Clone, Debug, PartialEq, Eq, Structural)]
pub struct Binding {
    pub code: u32,
    pub mods: u8,
}

/// The binding that stands for "no key".
pub open spec fn unbound() -> Binding {
    Binding { code: 0, mods: 0 }
}

impl Binding {
    /// A binding of `code` with modifier bits `mods`.
    pub fn new(code: u32, mods: u8) -> (b: Self)
        ensures
            b.code == code,
            b.mods == mods,
    {
        Self { code, mods }
    }
}

impl Default for Binding {
    /// The default binding is the `W` key with no modifiers.
    fn default() -> (b: Self)
        ensures
            b.code == 'W' as u32,
            b.mods == 0,
    {
        Binding::new('W' as u32, 0)
    }
}

/// The highest graphics quality level (Ultra); levels are 0 = Off, 1 = Low,
/// 2 = Medium, 3 = High, 4 = Ultra.
pub const MAX_GRAPHICS_QUALITY: u32 = 4;

/// The IEEE-754 bit pattern of `1.0f32`.
pub const F32_ONE_BITS: u32 = 0x3F80_0000;

/// The IEEE-754 bit pattern of `5.0f32`.
pub const F32_FIVE_BITS: u32 = 0x40A0_0000;

/// The IEEE-754 bit pattern of `7.0f32`.
pub const F32_SEVEN_BITS: u32 = 0x40E0_0000;

/// The IEEE-754 bit pattern of `8.0f32`.
pub const F32_EIGHT_BITS: u32 = 0x4100_0000;

/// User preferences: key bindings, input options, audio volumes and graphics
/// quality.  The mouse sensitivity and the volumes are `f32` settings that
/// this library carries without computing on them; they are held as their
/// IEEE-754 bit patterns (`f32::to_bits`).
#[derive(Clone, Copy, Debug, PartialEq, Eq, Structural)]
pub struct Prefs {
    pub key_w: Binding,
    pub key_a: Binding,
    pub key_s: Binding,
    pub key_d: Binding,
    pub key_up: Binding,
    pub key_down: Binding,
    pub key_sprint: Binding,
    pub mouse_sensitivity_bits: u32,
    pub input_filtering_enabled: bool,
    pub audio_sound_effect_volume_bits: u32,
    pub audio_music_volume_bits: u32,
    pub audio_ui_volume_bits: u32,
    pub audio_voice_volume_bits: u32,
    pub graphics_shadow_quality: u32,
    pub graphics_ssao_quality: u32,
}

/// The default preferences: W/A/S/D to move, Space up, the Ctrl key down, the
/// Shift key to sprint; sensitivity 1.0; input filtering on; volumes 7, 5, 8
/// and 7 (sound effects, music, UI, voice); shadow and SSAO quality High.
pub open spec fn default_prefs() -> Prefs {
    Prefs {
        key_w: Binding { code: 'W' as u32, mods: 0 },
        key_a: Binding { code: 'A' as u32, mods: 0 },
        key_s: Binding { code: 'S' as u32, mods: 0 },
        key_d: Binding { code: 'D' as u32, mods: 0 },
        key_up: Binding { code: ' ' as u32, mods: 0 },
        key_down: Binding { code: 0x205, mods: 0 },
        key_sprint: Binding { code: 0x204, mods: 0 },
        mouse_sensitivity_bits: F32_ONE_BITS,
        input_filtering_enabled: true,
        audio_sound_effect_volume_bits: F32_SEVEN_BITS,
        audio_music_volume_bits: F32_FIVE_BITS,
        audio_ui_volume_bits: F32_EIGHT_BITS,
        audio_voice_volume_bits: F32_SEVEN_BITS,
        graphics_shadow_quality: 3,
        graphics_ssao_quality: 3,
    }
}

impl Default for Prefs {
    fn default() -> (p: Self)
        ensures
            p == default_prefs(),
    {
        Prefs {
            key_w: Binding::new('W' as u32, 0),
            key_a: Binding::new('A' as u32, 0),
            key_s: Binding::new('S' as u32, 0),
            key_d: Binding::new('D' as u32, 0),
            key_up: Binding::new(' ' as u32, 0),
            key_down: Binding::new(0x205, 0),
            key_sprint: Binding::new(0x204, 0),
            mouse_sensitivity_bits: F32_ONE_BITS,
            input_filtering_enabled: true,
            audio_sound_effect_volume_bits: F32_SEVEN_BITS,
            audio_music_volume_bits: F32_FIVE_BITS,
            audio_ui_volume_bits: F32_EIGHT_BITS,
            audio_voice_volume_bits: F32_SEVEN_BITS,
            graphics_shadow_quality: 3,
            graphics_ssao_quality: 3,
        }
    }
}

/// A quality level capped at Ultra.
pub open spec fn capped_quality(q: u32) -> u32 {
    if q > MAX_GRAPHICS_QUALITY {
        MAX_GRAPHICS_QUALITY
    } else {
        q
    }
}

impl Prefs {
    pub fn key_w(&self) -> (b: Binding)
        ensures
            b == self.key_w,
    {
        self.key_w
    }

    pub fn key_a(&self) -> (b: Binding)
        ensures
            b == self.key_a,
    {
        self.key_a
    }

    pub fn key_s(&self) -> (b: Binding)
        ensures
            b == self.key_s,
    {
        self.key_s
    }

    pub fn key_d(&self) -> (b: Binding)
        ensures
            b == self.key_d,
    {
        self.key_d
    }

    pub fn key_up(&self) -> (b: Binding)
        ensures
            b == self.key_up,
    {
        self.key_up
    }

    pub fn key_down(&self) -> (b: Binding)
        ensures
            b == self.key_down,
    {
        self.key_down
    }

    pub fn key_sprint(&self) -> (b: Binding)
        ensures
            b == self.key_sprint,
    {
        self.key_sprint
    }

    pub fn set_key_w(&mut self, b: Binding)
        ensures
            *final(self) == (Prefs { key_w: b, ..*old(self) }),
    {
        self.key_w = b;
    }

    pub fn set_key_a(&mut self, b: Binding)
        ensures
            *final(self) == (Prefs { key_a: b, ..*old(self) }),
    {
        self.key_a = b;
    }

    pub fn set_key_s(&mut self, b: Binding)
        ensures
            *final(self) == (Prefs { key_s: b, ..*old(self) }),
    {
        self.key_s = b;
    }

    pub fn set_key_d(&mut self, b: Binding)
        ensures
            *final(self) == (Prefs { key_d: b, ..*old(self) }),
    {
        self.key_d = b;
    }

    pub fn set_key_up(&mut self, b: Binding)
        ensures
            *final(self) == (Prefs { key_up: b, ..*old(self) }),
    {
        self.key_up = b;
    }

    pub fn set_key_down(&mut self, b: Binding)
        ensures
            *final(self) == (Prefs { key_down: b, ..*old(self) }),
    {
        self.key_down = b;
    }

    pub fn set_key_sprint(&mut self, b: Binding)
        ensures
            *final(self) == (Prefs { key_sprint: b, ..*old(self) }),
    {
        self.key_sprint = b;
    }

    pub fn input_filtering_enabled(&self) -> (v: bool)
        ensures
            v == self.input_filtering_enabled,
    {
        self.input_filtering_enabled
    }

    /// The input-filtering switch, for a checkbox to edit.
    pub fn input_filtering_enabled_mut(&mut self) -> (v: &mut bool)
        ensures
            *v == old(self).input_filtering_enabled,
            *final(self) == (Prefs { input_filtering_enabled: *final(v), ..*old(self) }),
    {
        &mut self.input_filtering_enabled
    }

    pub fn shadow_quality(&self) -> (q: u32)
        ensures
            q == self.graphics_shadow_quality,
    {
        self.graphics_shadow_quality
    }

    pub fn ssao_quality(&self) -> (q: u32)
        ensures
            q == self.graphics_ssao_quality,
    {
        self.graphics_ssao_quality
    }

    /// Sets the shadow quality, capped at Ultra.
    pub fn set_shadow_quality(&mut self, quality: u32)
        ensures
            *final(self) == (Prefs { graphics_shadow_quality: capped_quality(quality), ..*old(self) }),
    {
        self.graphics_shadow_quality = if quality > MAX_GRAPHICS_QUALITY {
            MAX_GRAPHICS_QUALITY
        } else {
            quality
        };
    }

    /// Sets the SSAO quality, capped at Ultra.
    pub fn set_ssao_quality(&mut self, quality: u32)
        ensures
            *final(self) == (Prefs { graphics_ssao_quality: capped_quality(quality), ..*old(self) }),
    {
        self.graphics_ssao_quality = if quality > MAX_GRAPHICS_QUALITY {
            MAX_GRAPHICS_QUALITY
        } else {
            quality
        };
    }

    /// The bit pattern of the mouse sensitivity.
    pub fn mouse_sensitivity_bits(&self) -> (v: u32)
        ensures
            v == self.mouse_sensitivity_bits,
    {
        self.mouse_sensitivity_bits
    }

    /// The bit pattern of the sound-effect volume.
    pub fn sound_effect_volume_bits(&self) -> (v: u32)
        ensures
            v == self.audio_sound_effect_volume_bits,
    {
        self.audio_sound_effect_volume_bits
    }

    /// The bit pattern of the music volume.
    pub fn music_volume_bits(&self) -> (v: u32)
        ensures
            v == self.audio_music_volume_bits,
    {
        self.audio_music_volume_bits
    }

    /// The bit pattern of the UI volume.
    pub fn ui_volume_bits(&self) -> (v: u32)
        ensures
            v == self.audio_ui_volume_bits,
    {
        self.audio_ui_volume_bits
    }

    /// The bit pattern of the voice volume.
    pub fn voice_volume_bits(&self) -> (v: u32)
        ensures
            v == self.audio_voice_volume_bits,
    {
        self.audio_voice_volume_bits
    }

    pub fn with_key_w(self, b: Binding) -> (p: Self)
        ensures
            p == (Prefs { key_w: b, ..self }),
    {
        let mut p = self;
        p.key_w = b;
        p
    }

    pub fn with_key_a(self, b: Binding) -> (p: Self)
        ensures
            p == (Prefs { key_a: b, ..self }),
    {
        let mut p = self;
        p.key_a = b;
        p
    }

    /// A copy with the mouse sensitivity given by its bit pattern.
    pub fn with_mouse_sensitivity_bits(self, v: u32) -> (p: Self)
        ensures
            p == (Prefs { mouse_sensitivity_bits: v, ..self }),
    {
        let mut p = self;
        p.mouse_sensitivity_bits = v;
        p
    }

    pub fn with_input_filtering_enabled(self, v: bool) -> (p: Self)
        ensures
            p == (Prefs { input_filtering_enabled: v, ..self }),
    {
        let mut p = self;
        p.input_filtering_enabled = v;
        p
    }
}

// ---------------------------------------------------------------------------
// Reading the preferences file
// ---------------------------------------------------------------------------

/// A binding read from the file: the parsed value of the key in the controls
/// section, with the current binding as the fallback, or the current binding
/// when the file has no value for the key.
pub open spec fn binding_setting(content: Seq<char>, key: Seq<char>, current: Binding) -> Binding {
    match ini_file::prefs_value(content, key) {
        Some(v) => parser::parse_binding_text(v, current),
        None => current,
    }
}

/// A quality level read from `[graphics]`: the value, capped at Ultra, when
/// it is a decimal `u32`, else the current level.
pub open spec fn quality_setting(content: Seq<char>, key: Seq<char>, current: u32) -> u32 {
    match ini_file::ini_value(content, "graphics"@, key) {
        Some(v) => match text::decimal_u32(v) {
            Some(q) => capped_quality(q),
            None => current,
        },
        None => current,
    }
}

/// `true` or `1` (the word compared without regard to ASCII case).
pub open spec fn is_true_text(v: Seq<char>) -> bool {
    text::eq_ignore_ascii_case(v, seq!['t', 'r', 'u', 'e']) || v == seq!['1']
}

/// The input-filtering switch is read as on exactly when the file's value is
/// `1` or the word `true` in any letter case; any other value reads as off,
/// and without a value the default stays.
pub proof fn lemma_input_filtering_reads_true_or_one(content: Seq<char>)
    ensures
        ini_file::prefs_value(content, "input_filtering_enabled"@) matches Some(v) ==> (
        prefs_from_ini(content).input_filtering_enabled <==> (v == seq!['1']
            || text::same_up_to_case(v, seq!['t', 'r', 'u', 'e']))),
        ini_file::prefs_value(content, "input_filtering_enabled"@) is None ==> prefs_from_ini(
            content,
        ).input_filtering_enabled == default_prefs().input_filtering_enabled,
{
    if let Some(v) = ini_file::prefs_value(content, "input_filtering_enabled"@) {
        let t = seq!['t', 'r', 'u', 'e'];
        assert(text::ascii_lower_seq(t) =~= t);
        if text::same_up_to_case(v, t) {
            text::lemma_same_case_folds(v, t);
        }
        if text::ascii_lower_seq(v) == text::ascii_lower_seq(t) {
            assert(v.len() == 4);
            assert forall|i: int| 0 <= i < v.len() implies text::ascii_upper(#[trigger] v[i])
                == text::ascii_upper(t[i]) by {
                assert(text::ascii_lower_seq(v)[i] == text::ascii_lower(v[i]));
                assert(text::ascii_lower_seq(t)[i] == text::ascii_lower(t[i]));
                text::lemma_char_case(v[i]);
                text::lemma_char_case(t[i]);
            }
        }
    }
}

/// Loaded quality levels are always in their range, Off (0) to Ultra (4);
/// a level in range is read as written.
pub proof fn lemma_loaded_quality_in_range(content: Seq<char>)
    ensures
        prefs_from_ini(content).graphics_shadow_quality <= MAX_GRAPHICS_QUALITY,
        prefs_from_ini(content).graphics_ssao_quality <= MAX_GRAPHICS_QUALITY,
        ini_file::ini_value(content, "graphics"@, "shadow_quality"@) matches Some(v) ==> (
        text::decimal_u32(v) matches Some(q) ==> (q <= MAX_GRAPHICS_QUALITY
            ==> prefs_from_ini(content).graphics_shadow_quality == q)),
        ini_file::ini_value(content, "graphics"@, "ssao_quality"@) matches Some(v) ==> (
        text::decimal_u32(v) matches Some(q) ==> (q <= MAX_GRAPHICS_QUALITY
            ==> prefs_from_ini(content).graphics_ssao_quality == q)),
{
}

/// The preferences the file text gives, starting from the defaults: the seven
/// bindings and the input-filtering switch from the controls section, and the
/// two quality levels from `[graphics]`.  The `f32` settings keep their
/// defaults here; they are read by the caller, which parses floats.
pub open spec fn prefs_from_ini(content: Seq<char>) -> Prefs {
    let d = default_prefs();
    Prefs {
        key_w: binding_setting(content, "key_w"@, d.key_w),
        key_a: binding_setting(content, "key_a"@, d.key_a),
        key_s: binding_setting(content, "key_s"@, d.key_s),
        key_d: binding_setting(content, "key_d"@, d.key_d),
        key_up: binding_setting(content, "key_up"@, d.key_up),
        key_down: binding_setting(content, "key_down"@, d.key_down),
        key_sprint: binding_setting(content, "key_sprint"@, d.key_sprint),
        input_filtering_enabled: match ini_file::prefs_value(content, "input_filtering_enabled"@) {
            Some(v) => is_true_text(v),
            None => d.input_filtering_enabled,
        },
        graphics_shadow_quality: quality_setting(content, "shadow_quality"@, d.graphics_shadow_quality),
        graphics_ssao_quality: quality_setting(content, "ssao_quality"@, d.graphics_ssao_quality),
        ..d
    }
}

/// Reads one binding setting.
fn read_binding(content: &str, key: &str, current: Binding) -> (b: Binding)
    requires
        !ini_file::ini_text_panics(content@),
    ensures
        b == binding_setting(content@, key@, current),
{
    match prefs_setting(content, key) {
        Some(v) => parse_binding(v.as_str(), current),
        None => current,
    }
}

/// Reads one quality level.
fn read_quality(content: &str, key: &str, current: u32) -> (q: u32)
    requires
        !ini_file::ini_text_panics(content@),
    ensures
        q == quality_setting(content@, key@, current),
{
    match ini_setting(content, "graphics", key) {
        Some(v) => {
            let chars = str_chars(v.as_str());
            match parse_u32_chars(&chars) {
                Some(q) => if q > MAX_GRAPHICS_QUALITY {
                    MAX_GRAPHICS_QUALITY
                } else {
                    q
                },
                None => current,
            }
        },
        None => current,
    }
}

/// Tests `is_true_text`.
fn true_text(v: &str) -> (r: bool)
    ensures
        r == is_true_text(v@),
{
    let chars = str_chars(v);
    let lowered = text::lower_chars(&chars);
    proof {
        assert(text::ascii_lower_seq(seq!['t', 'r', 'u', 'e']) =~= seq!['t', 'r', 'u', 'e']);
    }
    let a = text::chars_eq(&lowered, &['t', 'r', 'u', 'e']);
    let b = chars.len() == 1 && chars[0] == '1';
    assert(a == (text::ascii_lower_seq(v@) == seq!['t', 'r', 'u', 'e']));
    assert(b == (v@ == seq!['1'])) by {
        if b {
            assert(chars@ =~= seq!['1']);
        }
    }
    assert(a == text::eq_ignore_ascii_case(v@, seq!['t', 'r', 'u', 'e']));
    a || b
}

impl Prefs {
    /// Preferences read from the text of the preferences file (see
    /// `prefs_from_ini`); the text must be one the INI parser can take.
    pub fn from_ini(content: &str) -> (p: Self)
        requires
            !ini_file::ini_text_panics(content@),
        ensures
            p == prefs_from_ini(content@),
    {
        let d = Prefs::default();
        let input_filtering_enabled = match prefs_setting(content, "input_filtering_enabled") {
            Some(v) => true_text(v.as_str()),
            None => d.input_filtering_enabled,
        };
        Prefs {
            key_w: read_binding(content, "key_w", d.key_w),
            key_a: read_binding(content, "key_a", d.key_a),
            key_s: read_binding(content, "key_s", d.key_s),
            key_d: read_binding(content, "key_d", d.key_d),
            key_up: read_binding(content, "key_up", d.key_up),
            key_down: read_binding(content, "key_down", d.key_down),
            key_sprint: read_binding(content, "key_sprint", d.key_sprint),
            input_filtering_enabled,
            graphics_shadow_quality: read_quality(content, "shadow_quality", d.graphics_shadow_quality),
            graphics_ssao_quality: read_quality(content, "ssao_quality", d.graphics_ssao_quality),
            ..d
        }
    }
}

// ---------------------------------------------------------------------------
// Writing the preferences file
// ---------------------------------------------------------------------------

/// The `f32` settings as the caller wrote them for the file: the mouse
/// sensitivity with `{}` and the four volumes with `{:.1}`.
pub struct PrefsFloatTexts {
    pub mouse_sensitivity: String,
    pub sound_effect_volume: String,
    pub music_volume: String,
    pub ui_volume: String,
    pub voice_volume: String,
}

/// `true` or `false`.
pub open spec fn bool_text(b: bool) -> Seq<char> {
    if b {
        "true"@
    } else {
        "false"@
    }
}

/// One `key=value` line.
pub open spec fn ini_line(key: Seq<char>, value: Seq<char>) -> Seq<char> {
    key + "="@ + value + "\n"@
}

/// The text of the preferences file: a `[prefs]` section with the seven
/// bindings (as `binding_to_string` writes them), the mouse sensitivity and
/// the input-filtering switch; an `[audio]` section with the four volumes;
/// and a `[graphics]` section with the two quality levels.
pub open spec fn prefs_ini_text(
    p: Prefs,
    mouse: Seq<char>,
    sfx: Seq<char>,
    music: Seq<char>,
    ui: Seq<char>,
    voice: Seq<char>,
) -> Seq<char> {
    "[prefs]\n"@ + ini_line("key_w"@, parser::binding_text(p.key_w)) + ini_line(
        "key_a"@,
        parser::binding_text(p.key_a),
    ) + ini_line("key_s"@, parser::binding_text(p.key_s)) + ini_line(
        "key_d"@,
        parser::binding_text(p.key_d),
    ) + ini_line("key_up"@, parser::binding_text(p.key_up)) + ini_line(
        "key_down"@,
        parser::binding_text(p.key_down),
    ) + ini_line("key_sprint"@, parser::binding_text(p.key_sprint)) + ini_line(
        "mouse_sensitivity"@,
        mouse,
    ) + ini_line("input_filtering_enabled"@, bool_text(p.input_filtering_enabled))
        + "\n[audio]\n"@ + ini_line("sound_effect_volume"@, sfx) + ini_line("music_volume"@, music)
        + ini_line("ui_volume"@, ui) + ini_line("voice_volume"@, voice) + "\n[graphics]\n"@
        + ini_line("shadow_quality"@, text::decimal_text(p.graphics_shadow_quality as nat))
        + ini_line("ssao_quality"@, text::decimal_text(p.graphics_ssao_quality as nat))
}

/// The INI parser reads `value` back for `key` in `[section]` of `content`.
pub open spec fn reads_back(content: Seq<char>, section: Seq<char>, key: Seq<char>, value: Seq<char>) -> bool {
    ini_file::ini_entry(content, section, key) == Some(Some(Some(value)))
}

/// A binding whose saved text reads back as itself.
pub open spec fn saveable_binding(b: Binding) -> bool {
    b.mods < 8 && parser::round_trip_code(b.code)
}

/// Saving then loading gives the preferences back.  When the INI parser
/// reads back, from the saved text, the value written for each control key
/// and each graphics key, the preferences loaded from that text are the
/// saved ones, except for the `f32` settings, which the caller reads; this
/// holds for bindings whose saved text reads back (`saveable_binding`) and
/// quality levels in their range, Off to Ultra.
#[verifier::spinoff_prover]
#[verifier::rlimit(40)]
pub proof fn lemma_prefs_file_round_trip(
    p: Prefs,
    mouse: Seq<char>,
    sfx: Seq<char>,
    music: Seq<char>,
    ui: Seq<char>,
    voice: Seq<char>,
)
    requires
        saveable_binding(p.key_w),
        saveable_binding(p.key_a),
        saveable_binding(p.key_s),
        saveable_binding(p.key_d),
        saveable_binding(p.key_up),
        saveable_binding(p.key_down),
        saveable_binding(p.key_sprint),
        p.graphics_shadow_quality <= MAX_GRAPHICS_QUALITY,
        p.graphics_ssao_quality <= MAX_GRAPHICS_QUALITY,
        ({
            let t = prefs_ini_text(p, mouse, sfx, music, ui, voice);
            &&& reads_back(t, "prefs"@, "key_w"@, parser::binding_text(p.key_w))
            &&& reads_back(t, "prefs"@, "key_a"@, parser::binding_text(p.key_a))
            &&& reads_back(t, "prefs"@, "key_s"@, parser::binding_text(p.key_s))
            &&& reads_back(t, "prefs"@, "key_d"@, parser::binding_text(p.key_d))
            &&& reads_back(t, "prefs"@, "key_up"@, parser::binding_text(p.key_up))
            &&& reads_back(t, "prefs"@, "key_down"@, parser::binding_text(p.key_down))
            &&& reads_back(t, "prefs"@, "key_sprint"@, parser::binding_text(p.key_sprint))
            &&& reads_back(
                t,
                "prefs"@,
                "input_filtering_enabled"@,
                bool_text(p.input_filtering_enabled),
            )
            &&& reads_back(
                t,
                "graphics"@,
                "shadow_quality"@,
                text::decimal_text(p.graphics_shadow_quality as nat),
            )
            &&& reads_back(
                t,
                "graphics"@,
                "ssao_quality"@,
                text::decimal_text(p.graphics_ssao_quality as nat),
            )
        }),
    ensures
        prefs_from_ini(prefs_ini_text(p, mouse, sfx, music, ui, voice)) == (Prefs {
            mouse_sensitivity_bits: default_prefs().mouse_sensitivity_bits,
            audio_sound_effect_volume_bits: default_prefs().audio_sound_effect_volume_bits,
            audio_music_volume_bits: default_prefs().audio_music_volume_bits,
            audio_ui_volume_bits: default_prefs().audio_ui_volume_bits,
            audio_voice_volume_bits: default_prefs().audio_voice_volume_bits,
            ..p
        }),
{
    let d = default_prefs();
    let t = prefs_ini_text(p, mouse, sfx, music, ui, voice);
    assert(ini_file::prefs_value(t, "key_w"@) == Some(parser::binding_text(p.key_w)));
    assert(ini_file::prefs_value(t, "key_a"@) == Some(parser::binding_text(p.key_a)));
    assert(ini_file::prefs_value(t, "key_s"@) == Some(parser::binding_text(p.key_s)));
    assert(ini_file::prefs_value(t, "key_d"@) == Some(parser::binding_text(p.key_d)));
    assert(ini_file::prefs_value(t, "key_up"@) == Some(parser::binding_text(p.key_up)));
    assert(ini_file::prefs_value(t, "key_down"@) == Some(parser::binding_text(p.key_down)));
    assert(ini_file::prefs_value(t, "key_sprint"@) == Some(parser::binding_text(p.key_sprint)));
    parser::lemma_binding_text_round_trip(p.key_w, d.key_w);
    parser::lemma_binding_text_round_trip(p.key_a, d.key_a);
    parser::lemma_binding_text_round_trip(p.key_s, d.key_s);
    parser::lemma_binding_text_round_trip(p.key_d, d.key_d);
    parser::lemma_binding_text_round_trip(p.key_up, d.key_up);
    parser::lemma_binding_text_round_trip(p.key_down, d.key_down);
    parser::lemma_binding_text_round_trip(p.key_sprint, d.key_sprint);
    text::lemma_decimal_text_reads_back(p.graphics_shadow_quality as nat);
    text::lemma_decimal_text_reads_back(p.graphics_ssao_quality as nat);
    reveal_strlit("true");
    reveal_strlit("false");
    assert(text::ascii_lower_seq("true"@) =~= seq!['t', 'r', 'u', 'e']);
    assert(text::ascii_lower_seq(seq!['t', 'r', 'u', 'e']) =~= seq!['t', 'r', 'u', 'e']);
    assert(!is_true_text("false"@)) by {
        assert(text::ascii_lower_seq("false"@).len() == 5);
    }
}

/// Appends one `key=value` line.
fn push_line(out: &mut String, key: &str, value: &str)
    ensures
        final(out)@ == old(out)@ + ini_line(key@, value@),
{
    push_str(out, key);
    push_str(out, "=");
    push_str(out, value);
    push_str(out, "\n");
    assert(out@ =~= old(out)@ + ini_line(key@, value@));
}

/// Appends one `key=<binding>` line.
fn push_binding_line(out: &mut String, key: &str, b: &Binding)
    ensures
        final(out)@ == old(out)@ + ini_line(key@, parser::binding_text(*b)),
{
    let v = binding_to_string(b);
    push_line(out, key, v.as_str());
}

/// Appends one `key=<number>` line.
fn push_number_line(out: &mut String, key: &str, n: u32)
    ensures
        final(out)@ == old(out)@ + ini_line(key@, text::decimal_text(n as nat)),
{
    let digits = text::u32_decimal_chars(n);
    let v = text::string_from_chars(&digits);
    push_line(out, key, v.as_str());
}

impl Prefs {
    /// The text of the preferences file for these preferences, given how the
    /// caller wrote the `f32` settings.
    pub fn ini_text(&self, floats: &PrefsFloatTexts) -> (out: String)
        ensures
            out@ == prefs_ini_text(
                *self,
                floats.mouse_sensitivity@,
                floats.sound_effect_volume@,
                floats.music_volume@,
                floats.ui_volume@,
                floats.voice_volume@,
            ),
    {
        let mut out = String::new();
        push_str(&mut out, "[prefs]\n");
        push_binding_line(&mut out, "key_w", &self.key_w);
        push_binding_line(&mut out, "key_a", &self.key_a);
        push_binding_line(&mut out, "key_s", &self.key_s);
        push_binding_line(&mut out, "key_d", &self.key_d);
        push_binding_line(&mut out, "key_up", &self.key_up);
        push_binding_line(&mut out, "key_down", &self.key_down);
        push_binding_line(&mut out, "key_sprint", &self.key_sprint);
        push_line(&mut out, "mouse_sensitivity", floats.mouse_sensitivity.as_str());
        if self.input_filtering_enabled {
            push_line(&mut out, "input_filtering_enabled", "true");
        } else {
            push_line(&mut out, "input_filtering_enabled", "false");
        }
        push_str(&mut out, "\n[audio]\n");
        push_line(&mut out, "sound_effect_volume", floats.sound_effect_volume.as_str());
        push_line(&mut out, "music_volume", floats.music_volume.as_str());
        push_line(&mut out, "ui_volume", floats.ui_volume.as_str());
        push_line(&mut out, "voice_volume", floats.voice_volume.as_str());
        push_str(&mut out, "\n[graphics]\n");
        push_number_line(&mut out, "shadow_quality", self.graphics_shadow_quality);
        push_number_line(&mut out, "ssao_quality", self.graphics_ssao_quality);
        out
    }
}

} // verus!
