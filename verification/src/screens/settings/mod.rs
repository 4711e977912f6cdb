//! The settings menu: tabs, staged preferences and key-binding capture.

pub mod binding_registry;
pub mod conflict_modal;
pub mod key_mapping;
pub mod keybind_capture;
pub mod state;
pub mod types;
pub mod video_tab;

pub use types::{BindingId, SettingsTab};

use crate::modal::ModalResult;
use crate::modals::KeybindConflictModal;
use crate::prefs::{Binding, Prefs};
use crate::text::string_from_str;
use binding_registry::prefs_bindings;
use keybind_capture::{BindingChange, CaptureView, KeyEvent, KeybindCaptureHandler};
use conflict_modal::PendingBinding;
use conflict_modal::ConflictModalState;
use state::{SettingsState, SettingsStateView};
use vstd::prelude::*;

verus! {

/// The fields of the settings screen that can carry unsaved changes.
#[derive(Clone, Copy, Debug, Hash, Eq, PartialEq, Structural)]
pub enum SettingsField {
    KeyW,
    KeyA,
    KeyS,
    KeyD,
    KeyUp,
    KeyDown,
    MouseSensitivity,
    InputFiltering,
    AudioSoundEffect,
    AudioMusic,
    AudioUI,
    AudioVoice,
}

/// The settings field of a key binding.
pub open spec fn binding_field(id: BindingId) -> SettingsField {
    match id {
        BindingId::KeyW => SettingsField::KeyW,
        BindingId::KeyA => SettingsField::KeyA,
        BindingId::KeyS => SettingsField::KeyS,
        BindingId::KeyD => SettingsField::KeyD,
        BindingId::KeyUp => SettingsField::KeyUp,
        BindingId::KeyDown => SettingsField::KeyDown,
    }
}

/// The settings field of a numeric binding id; ids other than 0-5 stand for
/// the Move Forward field.
pub open spec fn field_of_index(index: usize) -> SettingsField {
    match types::binding_at(index) {
        Some(id) => binding_field(id),
        None => SettingsField::KeyW,
    }
}

impl BindingId {
    /// The settings field of this binding.
    pub fn to_settings_field(self) -> (f: SettingsField)
        ensures
            f == binding_field(self),
    {
        match self {
            BindingId::KeyW => SettingsField::KeyW,
            BindingId::KeyA => SettingsField::KeyA,
            BindingId::KeyS => SettingsField::KeyS,
            BindingId::KeyD => SettingsField::KeyD,
            BindingId::KeyUp => SettingsField::KeyUp,
            BindingId::KeyDown => SettingsField::KeyDown,
        }
    }
}

/// The settings field of a numeric binding id (Move Forward for ids outside
/// 0-5).
pub fn field_for_index(index: usize) -> (f: SettingsField)
    ensures
        f == field_of_index(index),
{
    match index {
        0 => SettingsField::KeyW,
        1 => SettingsField::KeyA,
        2 => SettingsField::KeyS,
        3 => SettingsField::KeyD,
        4 => SettingsField::KeyUp,
        5 => SettingsField::KeyDown,
        _ => SettingsField::KeyW,
    }
}

/// No two of the six bindings are equal, unbound ones (code 0) aside.
pub open spec fn bindings_distinct(p: Prefs) -> bool {
    forall|i: int, j: int|
        0 <= i < 6 && 0 <= j < 6 && i != j && (#[trigger] prefs_bindings(p)[i]).code != 0
            ==> prefs_bindings(p)[i] != #[trigger] prefs_bindings(p)[j]
}

/// Staging a binding for the field of binding `i` replaces binding `i` of
/// the six.
pub proof fn lemma_field_of_index_binding(p: Prefs, i: usize, b: Binding)
    requires
        i < 6,
    ensures
        prefs_bindings(state::with_field_binding(p, field_of_index(i), b)) == prefs_bindings(
            p,
        ).update(i as int, b),
        state::field_binding(p, field_of_index(i)) == prefs_bindings(p)[i as int],
{
    assert(prefs_bindings(state::with_field_binding(p, field_of_index(i), b)) =~= prefs_bindings(
        p,
    ).update(i as int, b));
}

/// Reading a staged binding gives what was last staged for that field; the
/// other fields keep their bindings, and the field is marked dirty.
pub proof fn lemma_staged_read_after_write(
    s: SettingsStateView,
    f: SettingsField,
    b: Binding,
    g: SettingsField,
)
    ensures
        state::field_binding(state::staged_with(s, f, b).staged, f) == (match f {
            SettingsField::KeyW | SettingsField::KeyA | SettingsField::KeyS | SettingsField::KeyD
            | SettingsField::KeyUp | SettingsField::KeyDown => b,
            _ => Binding { code: 0, mods: 0 },
        }),
        g != f ==> state::field_binding(state::staged_with(s, f, b).staged, g)
            == state::field_binding(s.staged, g),
        state::staged_with(s, f, b).dirty.contains(f),
        state::staged_with(s, f, b).prefs == s.prefs,
{
}

/// A binding applied because it conflicts with no other binding keeps the
/// six bindings distinct.
pub proof fn lemma_applied_binding_keeps_bindings_distinct(p: Prefs, listen_id: usize, b: Binding)
    requires
        listen_id < 6,
        bindings_distinct(p),
        keybind_capture::conflict_for(p, listen_id, b) is None,
    ensures
        bindings_distinct(state::with_field_binding(p, field_of_index(listen_id), b)),
{
    let q = state::with_field_binding(p, field_of_index(listen_id), b);
    lemma_field_of_index_binding(p, listen_id, b);
    let exclude = types::binding_at(listen_id)->0;
    binding_registry::lemma_conflict_sound_and_complete(prefs_bindings(p), b, exclude);
    assert forall|i: int, j: int|
        0 <= i < 6 && 0 <= j < 6 && i != j && (#[trigger] prefs_bindings(q)[i]).code != 0 implies prefs_bindings(
        q,
    )[i] != #[trigger] prefs_bindings(q)[j] by {
        types::lemma_binding_index_round_trip(BindingId::KeyW, i as usize);
        types::lemma_binding_index_round_trip(BindingId::KeyW, j as usize);
        types::lemma_binding_index_round_trip(BindingId::KeyW, listen_id);
        if i == listen_id {
            assert(types::binding_at(j as usize) != Some(exclude));
        } else if j == listen_id {
            assert(types::binding_at(i as usize) != Some(exclude));
        } else {
            assert(prefs_bindings(p)[i] != prefs_bindings(p)[j]);
        }
    }
}

/// The binding confirmed for the conflict dialog of `target`, taking binding
/// `b` away from binding `c`.
pub open spec fn confirmed_pending(target: usize, b: Binding, c: usize) -> Option<PendingBinding> {
    Some(PendingBinding { target_id: target, binding: b, conflicting_id: Some(c) })
}

/// Confirming a conflict unbinds the binding that held the key and gives
/// the key to the target; the other bindings stay, and both fields are
/// marked dirty.
pub proof fn lemma_confirm_replaces_conflicting(s: SettingsStateView, target: usize, b: Binding, c: usize)
    requires
        target < 6,
        c < 6,
        target != c,
    ensures
        ({
            let after = state::staged_with_all(
                s,
                keybind_capture::pending_changes(confirmed_pending(target, b, c)),
            );
            &&& prefs_bindings(after.staged) == prefs_bindings(s.staged).update(
                c as int,
                Binding { code: 0, mods: 0 },
            ).update(target as int, b)
            &&& after.dirty.contains(field_of_index(target))
            &&& after.dirty.contains(field_of_index(c))
            &&& after.prefs == s.prefs
        }),
{
    let changes = keybind_capture::pending_changes(confirmed_pending(target, b, c));
    let unbound = Binding { code: 0, mods: 0 };
    let s1 = state::staged_with(s, field_of_index(c), unbound);
    let s2 = state::staged_with(s1, field_of_index(target), b);
    assert(changes.len() == 2);
    assert(changes[0] == (field_of_index(c), unbound));
    assert(changes.drop_first()[0] == (field_of_index(target), b));
    assert(changes.drop_first().drop_first() =~= Seq::<BindingChange>::empty());
    assert(state::staged_with_all(s1, changes.drop_first()) == state::staged_with_all(
        s2,
        changes.drop_first().drop_first(),
    ));
    assert(state::staged_with_all(s, changes) == s2);
    lemma_field_of_index_binding(s.staged, c, unbound);
    lemma_field_of_index_binding(s1.staged, target, b);
}

/// Confirming the conflict dialog that a key press opened, from distinct
/// bindings, leaves the bindings distinct: the only binding that held the key
/// is unbound and the target takes it.
pub proof fn lemma_confirmed_conflict_keeps_bindings_distinct(
    s: SettingsStateView,
    target: usize,
    b: Binding,
    c: BindingId,
)
    requires
        target < 6,
        bindings_distinct(s.staged),
        keybind_capture::conflict_for(s.staged, target, b) == Some(c),
    ensures
        bindings_distinct(
            state::staged_with_all(
                s,
                keybind_capture::pending_changes(
                    confirmed_pending(target, b, types::binding_index(c) as usize),
                ),
            ).staged,
        ),
{
    let ci = types::binding_index(c) as usize;
    let exclude = types::binding_at(target)->0;
    binding_registry::lemma_conflict_sound_and_complete(prefs_bindings(s.staged), b, exclude);
    types::lemma_binding_index_round_trip(c, target);
    types::lemma_binding_index_round_trip(exclude, target);
    assert(ci != target);
    lemma_confirm_replaces_conflicting(s, target, b, ci);
    let after = state::staged_with_all(
        s,
        keybind_capture::pending_changes(confirmed_pending(target, b, ci)),
    ).staged;
    let old_b = prefs_bindings(s.staged);
    assert(old_b[ci as int] == b);
    assert forall|i: int, j: int|
        0 <= i < 6 && 0 <= j < 6 && i != j && (#[trigger] prefs_bindings(after)[i]).code != 0 implies prefs_bindings(
        after,
    )[i] != #[trigger] prefs_bindings(after)[j] by {
        if i == target {
            if j != ci {
                assert(old_b[j] != old_b[ci as int]);
            }
        } else if j == target {
            if i != ci {
                assert(old_b[i] != old_b[ci as int]);
            }
        } else {
            if i != ci && j != ci {
                assert(old_b[i] != old_b[j]);
            }
        }
    }
}

/// Binding a key that another binding holds opens the conflict dialog and
/// changes no binding; confirming it then gives the key to the binding being
/// set and unbinds the other one.
pub proof fn lemma_conflict_then_confirm(m: SettingsMenuView, listen_id: usize, code: u32, mods: u8)
    requires
        m.capture.listening == Some(listen_id),
        listen_id < 6,
        code != keybind_capture::escape_code(),
        keybind_capture::conflict_for(m.state.staged, listen_id, Binding { code, mods }) is Some,
    ensures
        ({
            let (c1, consumed, changes) = keybind_capture::after_key_code(
                m.capture,
                code,
                mods,
                m.state.staged,
            );
            let c = keybind_capture::conflict_for(m.state.staged, listen_id, Binding { code, mods })->0;
            let after = state::staged_with_all(
                m.state,
                keybind_capture::pending_changes(c1.modal.pending),
            );
            &&& consumed
            &&& changes.len() == 0
            &&& c1.modal.show
            &&& c1.listening is None
            &&& prefs_bindings(after.staged)[listen_id as int] == Binding { code, mods }
            &&& prefs_bindings(after.staged)[types::binding_index(c) as int] == Binding {
                code: 0,
                mods: 0,
            }
        }),
{
    let b = Binding { code, mods };
    let c = keybind_capture::conflict_for(m.state.staged, listen_id, b)->0;
    let exclude = types::binding_at(listen_id)->0;
    binding_registry::lemma_conflict_sound_and_complete(prefs_bindings(m.state.staged), b, exclude);
    types::lemma_binding_index_round_trip(c, listen_id);
    types::lemma_binding_index_round_trip(exclude, listen_id);
    lemma_confirm_replaces_conflicting(m.state, listen_id, b, types::binding_index(c) as usize);
}

/// What the settings menu holds: the active tab, the saved and staged
/// preferences, and the key-capture state.
pub struct SettingsMenuView {
    pub active_tab: SettingsTab,
    pub state: SettingsStateView,
    pub capture: CaptureView,
}

/// The menu after a capture step: the capture state becomes `capture` and
/// the binding changes are staged in order.
pub open spec fn after_capture(
    m: SettingsMenuView,
    capture: CaptureView,
    changes: Seq<BindingChange>,
) -> SettingsMenuView {
    SettingsMenuView {
        capture,
        state: state::staged_with_all(m.state, changes),
        ..m
    }
}

/// The staged binding of a numeric binding id; unbound for ids outside 0-5.
pub open spec fn staged_binding_of(m: SettingsMenuView, binding_id: usize) -> Binding {
    if binding_id < 6 {
        state::field_binding(m.state.staged, field_of_index(binding_id))
    } else {
        Binding { code: 0, mods: 0 }
    }
}

/// The Settings menu: tabs, staged preferences with unsaved-change tracking,
/// and key-binding capture with conflict resolution.
pub struct SettingsMenu {
    active_tab: SettingsTab,
    state: SettingsState,
    keybind_capture: KeybindCaptureHandler,
}

impl View for SettingsMenu {
    type V = SettingsMenuView;

    closed spec fn view(&self) -> SettingsMenuView {
        SettingsMenuView {
            active_tab: self.active_tab,
            state: self.state@,
            capture: self.keybind_capture@,
        }
    }
}

impl SettingsMenu {
    /// A menu on the Controls tab whose saved and staged preferences are
    /// `prefs`, with nothing dirty and nothing being captured.
    pub fn with_prefs(prefs: Prefs) -> (m: Self)
        ensures
            m@.active_tab == SettingsTab::Controls,
            m@.state.prefs == prefs,
            m@.state.staged == prefs,
            m@.state.dirty == Set::<SettingsField>::empty(),
            keybind_capture::idle_capture(m@.capture),
            keybind_capture::dialog_matches_pending(m@.capture),
    {
        Self {
            active_tab: SettingsTab::Controls,
            state: SettingsState::from_prefs(prefs),
            keybind_capture: KeybindCaptureHandler::new(),
        }
    }

    /// The name of the screen.
    pub fn name(&self) -> (s: &'static str)
        ensures
            s@ == "settings"@,
    {
        "settings"
    }

    /// Whether the menu is listening for a new binding.
    pub fn is_listening(&self) -> (b: bool)
        ensures
            b == self@.capture.listening is Some,
    {
        self.keybind_capture.is_listening()
    }

    /// Whether the menu is listening for the binding with this numeric id.
    pub fn is_listening_for(&self, binding_id: usize) -> (b: bool)
        ensures
            b == (self@.capture.listening == Some(binding_id)),
    {
        match self.keybind_capture.listening_id() {
            Some(id) => id == binding_id,
            None => false,
        }
    }

    /// The menu takes raw keyboard input while it listens for a binding.
    pub fn captures_raw_input(&self) -> (b: bool)
        ensures
            b == self@.capture.listening is Some,
    {
        self.is_listening()
    }

    /// The key-capture state.
    pub fn keybind_capture(&self) -> (h: &KeybindCaptureHandler)
        ensures
            h@ == self@.capture,
    {
        &self.keybind_capture
    }

    /// The conflict dialog state.
    pub fn conflict_modal(&self) -> (m: &ConflictModalState)
        ensures
            m@ == self@.capture.modal,
            keybind_capture::dialog_matches_pending(self@.capture),
    {
        self.keybind_capture.conflict_modal()
    }

    /// The staged preferences (the ones to write out on save).
    pub fn staged_prefs(&self) -> (p: &Prefs)
        ensures
            *p == self@.state.staged,
    {
        self.state.staged()
    }

    /// The saved and staged preferences, for the settings tabs to show.
    pub fn state(&self) -> (s: &SettingsState)
        ensures
            s@ == self@.state,
    {
        &self.state
    }

    /// The saved and staged preferences, for the settings tabs to edit.
    pub fn state_mut(&mut self) -> (s: &mut SettingsState)
        ensures
            s@ == old(self)@.state,
            final(self)@ == (SettingsMenuView { state: final(s)@, ..old(self)@ }),
    {
        &mut self.state
    }

    /// The saved preferences.
    pub fn saved_prefs(&self) -> (p: &Prefs)
        ensures
            *p == self@.state.prefs,
    {
        self.state.prefs()
    }

    /// Stages binding changes.
    fn stage(&mut self, changes: &Vec<BindingChange>)
        ensures
            final(self)@ == (SettingsMenuView {
                state: state::staged_with_all(old(self)@.state, changes@),
                ..old(self)@
            }),
    {
        self.state.apply_binding_changes(changes);
    }

    /// Confirms the pending binding: the conflicting binding is unbound, the
    /// target takes the new binding, and the dialog is hidden.
    pub fn apply_pending_binding(&mut self)
        ensures
            final(self)@.active_tab == old(self)@.active_tab,
            final(self)@.state == state::staged_with_all(
                old(self)@.state,
                keybind_capture::pending_changes(old(self)@.capture.modal.pending),
            ),
            final(self)@.capture.listening == old(self)@.capture.listening,
            final(self)@.capture.last_mods == old(self)@.capture.last_mods,
            !final(self)@.capture.modal.show,
            final(self)@.capture.modal.pending is None,
            final(self)@.capture.modal.key_name == old(self)@.capture.modal.key_name,
            final(self)@.capture.modal.binding_desc == old(self)@.capture.modal.binding_desc,
            keybind_capture::dialog_matches_pending(final(self)@.capture),
    {
        let changes = self.keybind_capture.apply_pending();
        self.stage(&changes);
    }

    /// Confirms the pending binding (the dialog's Proceed button).
    pub fn confirm_pending_binding(&mut self)
        ensures
            final(self)@.active_tab == old(self)@.active_tab,
            final(self)@.state == state::staged_with_all(
                old(self)@.state,
                keybind_capture::pending_changes(old(self)@.capture.modal.pending),
            ),
            final(self)@.capture.listening == old(self)@.capture.listening,
            final(self)@.capture.last_mods == old(self)@.capture.last_mods,
            !final(self)@.capture.modal.show,
            final(self)@.capture.modal.pending is None,
            final(self)@.capture.modal.key_name == old(self)@.capture.modal.key_name,
            final(self)@.capture.modal.binding_desc == old(self)@.capture.modal.binding_desc,
            keybind_capture::dialog_matches_pending(final(self)@.capture),
    {
        self.apply_pending_binding();
    }

    /// Drops the pending binding and clears the dialog; the staged bindings
    /// stay as they were.
    pub fn cancel_pending_binding(&mut self)
        ensures
            final(self)@.active_tab == old(self)@.active_tab,
            final(self)@.state == old(self)@.state,
            final(self)@.capture.listening == old(self)@.capture.listening,
            final(self)@.capture.last_mods == old(self)@.capture.last_mods,
            conflict_modal::cleared_modal(final(self)@.capture.modal),
            keybind_capture::dialog_matches_pending(final(self)@.capture),
    {
        self.keybind_capture.cancel_pending_binding();
    }

    /// Starts listening for a new binding of the binding with this id.
    pub fn start_listening(&mut self, binding_id: usize)
        ensures
            final(self)@ == (SettingsMenuView {
                capture: CaptureView { listening: Some(binding_id), last_mods: 0, ..old(self)@.capture },
                ..old(self)@
            }),
            keybind_capture::dialog_matches_pending(final(self)@.capture),
    {
        self.keybind_capture.start_listening(binding_id);
    }

    /// Applies a resolved key code with modifier bits (Ctrl = 1, Shift = 2,
    /// Alt = 4) while listening: Escape cancels, another key becomes the
    /// binding or opens the conflict dialog (see `after_key_code`).  Returns
    /// whether the key was consumed.
    pub fn apply_key_code_while_listening(&mut self, code: u32, mods_bits: u8) -> (consumed: bool)
        requires
            old(self)@.capture.listening matches Some(id) ==> (code != keybind_capture::escape_code()
                ==> id < 6),
        ensures
            ({
                let (c, r, changes) = keybind_capture::after_key_code(
                    old(self)@.capture,
                    code,
                    mods_bits,
                    old(self)@.state.staged,
                );
                final(self)@ == after_capture(old(self)@, c, changes) && consumed == r
            }),
            keybind_capture::dialog_matches_pending(final(self)@.capture),
    {
        let staged = *self.state.staged();
        let (consumed, changes) = self.keybind_capture.apply_key_code_while_listening(
            code,
            mods_bits,
            &staged,
        );
        self.stage(&changes);
        consumed
    }

    /// A change of the held modifier bits while listening: a single modifier
    /// pressed alone becomes the binding or opens the conflict dialog (see
    /// `after_modifiers`).  Returns whether it did either.
    pub fn capture_modifier_if_listening(&mut self, cur_mods: u8) -> (applied: bool)
        requires
            old(self)@.capture.listening matches Some(id) ==> (cur_mods != old(self)@.capture.last_mods
                && old(self)@.capture.last_mods == 0 && (cur_mods == 1 || cur_mods == 2 || cur_mods
                == 4) ==> id < 6),
        ensures
            ({
                let (c, r, changes) = keybind_capture::after_modifiers(
                    old(self)@.capture,
                    cur_mods,
                    old(self)@.state.staged,
                );
                final(self)@ == after_capture(old(self)@, c, changes) && applied == r
            }),
            keybind_capture::dialog_matches_pending(final(self)@.capture),
    {
        let staged = *self.state.staged();
        let (applied, changes) = self.keybind_capture.capture_modifier_if_listening(
            cur_mods,
            &staged,
        );
        self.stage(&changes);
        applied
    }

    /// Key capture for one frame: the held modifier bits first, then the key
    /// events (see `KeybindCaptureHandler::handle_key_capture`); the binding
    /// changes are staged.
    pub fn handle_key_capture(&mut self, cur_mods: u8, events: &[KeyEvent])
        requires
            old(self)@.capture.listening matches Some(id) ==> (cur_mods != old(self)@.capture.last_mods
                && old(self)@.capture.last_mods == 0 && (cur_mods == 1 || cur_mods == 2 || cur_mods
                == 4) ==> id < 6),
        ensures
            old(self)@.capture.listening is None ==> final(self)@ == old(self)@,
            old(self)@.capture.listening is Some ==> ({
                let staged = old(self)@.state.staged;
                let (s1, captured, c1) = keybind_capture::after_modifiers(
                    old(self)@.capture,
                    cur_mods,
                    staged,
                );
                if captured {
                    final(self)@ == after_capture(old(self)@, s1, c1)
                } else {
                    let (s2, c2) = keybind_capture::after_key_events(s1, events@, staged);
                    final(self)@ == after_capture(old(self)@, s2, c2)
                }
            }),
            keybind_capture::dialog_matches_pending(final(self)@.capture),
    {
        let staged = *self.state.staged();
        let changes = self.keybind_capture.handle_key_capture(cur_mods, events, &staged);
        self.stage(&changes);
    }

    /// The active tab.
    pub fn active_tab(&self) -> (t: SettingsTab)
        ensures
            t == self@.active_tab,
    {
        self.active_tab
    }

    /// Switches to a tab.
    pub fn set_active_tab(&mut self, tab: SettingsTab)
        ensures
            final(self)@ == (SettingsMenuView { active_tab: tab, ..old(self)@ }),
            keybind_capture::dialog_matches_pending(final(self)@.capture),
    {
        proof {
            use_type_invariant(&self.keybind_capture);
        }
        self.active_tab = tab;
    }

    /// Whether any field has unsaved changes.
    pub fn has_unsaved_changes(&self) -> (b: bool)
        ensures
            b == (self@.state.dirty != Set::<SettingsField>::empty()),
    {
        self.state.is_dirty()
    }

    /// The staged binding of a numeric binding id (unbound for ids outside
    /// 0-5).
    pub fn get_staged_binding(&self, binding_id: usize) -> (b: Binding)
        ensures
            b == staged_binding_of(self@, binding_id),
    {
        if binding_id >= 6 {
            return Binding::new(0, 0);
        }
        self.state.get_staged_binding(field_for_index(binding_id))
    }

    /// Applies the staged changes once they have been written out:
    /// `save_result` is the outcome of writing the staged preferences.  On
    /// success they become the saved preferences and nothing is dirty; on
    /// failure nothing changes.
    pub fn apply_staged_changes<E>(&mut self, save_result: Result<(), E>)
        ensures
            final(self)@.active_tab == old(self)@.active_tab,
            final(self)@.capture == old(self)@.capture,
            save_result is Ok ==> final(self)@.state.prefs == old(self)@.state.staged
                && final(self)@.state.staged == old(self)@.state.staged
                && final(self)@.state.dirty == Set::<SettingsField>::empty(),
            save_result is Err ==> final(self)@.state == old(self)@.state,
            keybind_capture::dialog_matches_pending(final(self)@.capture),
    {
        proof {
            use_type_invariant(&self.keybind_capture);
        }
        let _ = self.state.apply_changes(save_result);
    }

    /// Discards the staged changes.
    pub fn revert_staged_changes(&mut self)
        ensures
            final(self)@.active_tab == old(self)@.active_tab,
            final(self)@.capture == old(self)@.capture,
            final(self)@.state.prefs == old(self)@.state.prefs,
            final(self)@.state.staged == old(self)@.state.prefs,
            final(self)@.state.dirty == Set::<SettingsField>::empty(),
            keybind_capture::dialog_matches_pending(final(self)@.capture),
    {
        proof {
            use_type_invariant(&self.keybind_capture);
        }
        self.state.revert_changes();
    }

    /// When the conflict dialog is shown, the dialog to display for it; the
    /// capture state keeps the pending binding only until it is answered.
    pub fn take_pending_modal(&mut self) -> (m: Option<KeybindConflictModal>)
        ensures
            final(self)@.active_tab == old(self)@.active_tab,
            final(self)@.state == old(self)@.state,
            old(self)@.capture.modal.show ==> (m matches Some(mm)
                && mm.conflicting_key_name()@ == old(self)@.capture.modal.key_name
                && mm.new_binding_description()@ == old(self)@.capture.modal.binding_desc
                && conflict_modal::cleared_modal(final(self)@.capture.modal)
                && final(self)@.capture.listening == old(self)@.capture.listening
                && final(self)@.capture.last_mods == old(self)@.capture.last_mods),
            !old(self)@.capture.modal.show ==> m is None && final(self)@ == old(self)@,
            keybind_capture::dialog_matches_pending(final(self)@.capture),
    {
        proof {
            use_type_invariant(&self.keybind_capture);
        }
        match self.keybind_capture.take_conflict_modal() {
            Some(taken) => {
                let name = string_from_str(taken.conflict_key_name());
                let desc = string_from_str(taken.conflict_binding_desc());
                Some(KeybindConflictModal::new(name, desc))
            },
            None => None,
        }
    }

    /// The dialog was confirmed: the pending binding is applied.
    pub fn on_modal_confirm(&mut self)
        ensures
            final(self)@.active_tab == old(self)@.active_tab,
            final(self)@.state == state::staged_with_all(
                old(self)@.state,
                keybind_capture::pending_changes(old(self)@.capture.modal.pending),
            ),
            final(self)@.capture.listening == old(self)@.capture.listening,
            final(self)@.capture.last_mods == old(self)@.capture.last_mods,
            !final(self)@.capture.modal.show,
            final(self)@.capture.modal.pending is None,
            final(self)@.capture.modal.key_name == old(self)@.capture.modal.key_name,
            final(self)@.capture.modal.binding_desc == old(self)@.capture.modal.binding_desc,
            keybind_capture::dialog_matches_pending(final(self)@.capture),
    {
        self.apply_pending_binding();
    }

    /// The dialog was cancelled: the pending binding is dropped.
    pub fn on_modal_cancel(&mut self)
        ensures
            final(self)@.active_tab == old(self)@.active_tab,
            final(self)@.state == old(self)@.state,
            final(self)@.capture.listening == old(self)@.capture.listening,
            final(self)@.capture.last_mods == old(self)@.capture.last_mods,
            conflict_modal::cleared_modal(final(self)@.capture.modal),
            keybind_capture::dialog_matches_pending(final(self)@.capture),
    {
        self.keybind_capture.cancel_pending_binding();
    }
    /// Hands the dialog's answer to the menu: a confirmation applies the
    /// pending binding, a cancellation drops it, and no answer yet changes
    /// nothing.
    pub fn on_modal_result(&mut self, result: ModalResult)
        ensures
            result == ModalResult::NoChoice ==> final(self)@ == old(self)@,
            result == ModalResult::Confirm ==> final(self)@ == (SettingsMenuView {
                state: state::staged_with_all(
                    old(self)@.state,
                    keybind_capture::pending_changes(old(self)@.capture.modal.pending),
                ),
                capture: CaptureView {
                    modal: conflict_modal::ConflictModalView {
                        show: false,
                        pending: None,
                        ..old(self)@.capture.modal
                    },
                    ..old(self)@.capture
                },
                ..old(self)@
            }),
            result == ModalResult::Cancel ==> final(self)@.active_tab == old(self)@.active_tab
                && final(self)@.state == old(self)@.state && final(self)@.capture.listening
                == old(self)@.capture.listening && final(self)@.capture.last_mods
                == old(self)@.capture.last_mods && conflict_modal::cleared_modal(
                final(self)@.capture.modal,
            ),
    {
        match result {
            ModalResult::Confirm => self.on_modal_confirm(),
            ModalResult::Cancel => self.on_modal_cancel(),
            ModalResult::NoChoice => {},
        }
    }
}

} // verus!
