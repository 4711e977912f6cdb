//! Capturing a new key binding: key presses and modifier-only bindings while
//! listening, conflict detection, and the conflict dialog.
//!
//! Where a binding changes, the functions here return the change, a pair of
//! the settings field and its new binding, for the caller to apply to its
//! staged preferences.

use super::binding_registry::{self, BindingRegistry};
use super::conflict_modal::{self, ConflictModalState, ConflictModalView, PendingBinding};
use super::key_mapping::{self, key_to_code, Key, Modifiers};
use super::types::{self, BindingId};
use super::{field_for_index, SettingsField};
use crate::prefs::parser::{self, binding_label};
use crate::prefs::{Binding, Prefs};
use crate::text::string_from_str;
use vstd::prelude::*;

verus! {

/// The state of the capture handler.
pub struct CaptureView {
    /// The numeric id of the binding being listened for, if any.
    pub listening: Option<usize>,
    /// The modifier bits seen last (for modifier-only bindings).
    pub last_mods: u8,
    /// The conflict dialog.
    pub modal: ConflictModalView,
}

/// A binding change for the caller to apply: the field and its new binding.
pub type BindingChange = (SettingsField, Binding);

/// The Escape key code, which cancels listening.
pub open spec fn escape_code() -> u32 {
    0x200
}

/// The binding that conflicts with `b` for the binding being listened for.
pub open spec fn conflict_for(p: Prefs, listen_id: usize, b: Binding) -> Option<BindingId> {
    binding_registry::first_conflict(binding_registry::prefs_bindings(p), b, types::binding_at(listen_id)->0)
}

/// The dialog shown when `b`, asked for binding `listen_id`, conflicts with
/// the binding `c`: it names `c` and describes `b`.
pub open spec fn conflict_dialog(listen_id: usize, b: Binding, c: BindingId) -> ConflictModalView {
    ConflictModalView {
        show: true,
        pending: Some(
            PendingBinding {
                target_id: listen_id,
                binding: b,
                conflicting_id: Some(types::binding_index(c)),
            },
        ),
        key_name: types::binding_display_name(c),
        binding_desc: parser::binding_label_text(b),
    }
}

/// The result of a step: the new state, whether the input was consumed, and
/// the binding changes to apply.
pub type CaptureStep = (CaptureView, bool, Seq<BindingChange>);

/// Offering binding `b` for `listen_id` (an id 0-5): on a conflict the dialog
/// is shown and nothing changes; otherwise the binding's field takes `b`.
/// Listening is not changed here.
pub open spec fn offer_binding(s: CaptureView, listen_id: usize, b: Binding, p: Prefs) -> CaptureStep {
    match conflict_for(p, listen_id, b) {
        Some(c) => (CaptureView { modal: conflict_dialog(listen_id, b, c), ..s }, true, seq![]),
        None => (s, true, seq![(super::field_of_index(listen_id), b)]),
    }
}

/// A resolved key code with modifier bits while listening: Escape cancels
/// listening and clears the dialog; any other key is offered as a binding
/// with those modifiers, and listening stops.  Nothing happens when not
/// listening.
pub open spec fn after_key_code(s: CaptureView, code: u32, mods: u8, p: Prefs) -> CaptureStep {
    match s.listening {
        None => (s, false, seq![]),
        Some(id) => if code == escape_code() {
            (
                CaptureView {
                    listening: None,
                    modal: ConflictModalView {
                        show: false,
                        pending: None,
                        key_name: Seq::<char>::empty(),
                        binding_desc: Seq::<char>::empty(),
                    },
                    ..s
                },
                true,
                seq![],
            )
        } else {
            let (s2, consumed, changes) = offer_binding(s, id, Binding { code, mods }, p);
            (CaptureView { listening: None, ..s2 }, consumed, changes)
        },
    }
}

/// The key code of the modifier key that a single modifier bit stands for.
pub open spec fn modifier_key_code(bit: u8) -> u32 {
    if bit == 1 {
        0x205
    } else if bit == 2 {
        0x204
    } else {
        0x206
    }
}

/// A change of the held modifiers while listening.  When no modifier was held
/// and exactly one now is, that modifier key alone is offered as a binding:
/// on a conflict the dialog is shown (listening goes on); otherwise the
/// binding is applied and listening stops.  The held modifiers are recorded
/// whenever they changed.
pub open spec fn after_modifiers(s: CaptureView, cur: u8, p: Prefs) -> CaptureStep {
    match s.listening {
        None => (s, false, seq![]),
        Some(id) => if cur == s.last_mods {
            (s, false, seq![])
        } else if s.last_mods == 0 && (cur == 1 || cur == 2 || cur == 4) {
            let b = Binding { code: modifier_key_code(cur), mods: 0 };
            match conflict_for(p, id, b) {
                Some(c) => (
                    CaptureView { modal: conflict_dialog(id, b, c), last_mods: cur, ..s },
                    true,
                    seq![],
                ),
                None => (
                    CaptureView { listening: None, last_mods: cur, ..s },
                    true,
                    seq![(super::field_of_index(id), b)],
                ),
            }
        } else {
            (CaptureView { last_mods: cur, ..s }, false, seq![])
        },
    }
}

/// The modifier bits of held modifiers: Ctrl = 1, Shift = 2, Alt = 4.
pub open spec fn modifier_bits(m: Modifiers) -> u8 {
    ((if m.ctrl {
        1u8
    } else {
        0u8
    }) + (if m.shift {
        2u8
    } else {
        0u8
    }) + (if m.alt {
        4u8
    } else {
        0u8
    })) as u8
}

/// The binding a key press makes.  A key without a code pressed with exactly
/// one modifier held is that modifier key alone.
pub open spec fn binding_from_key(key: Key, m: Modifiers) -> Binding {
    let code = key_mapping::key_code(key);
    let mods = modifier_bits(m);
    if code == 0 && (mods == 1 || mods == 2 || mods == 4) {
        Binding { code: modifier_key_code(mods), mods: 0 }
    } else {
        Binding { code, mods }
    }
}

/// A key event from the UI toolkit.
#[derive(Clone, Copy, Debug, PartialEq, Eq, Structural)]
pub struct KeyEvent {
    pub key: Key,
    pub pressed: bool,
    pub modifiers: Modifiers,
}

/// Whether a key press ends listening: Escape always does; another key does
/// when a binding 0-5 is being listened for.
pub open spec fn handles_key(s: CaptureView, e: KeyEvent) -> bool {
    e.pressed && (e.key == Key::Escape || (s.listening matches Some(id) && id < 6))
}

/// The first event from `i` on that ends listening.
pub open spec fn first_handled(s: CaptureView, events: Seq<KeyEvent>, i: nat) -> Option<nat>
    decreases events.len() - i,
{
    if i >= events.len() {
        None
    } else if handles_key(s, events[i as int]) {
        Some(i)
    } else {
        first_handled(s, events, i + 1)
    }
}

/// The key events of one frame while listening: the first pressed key that
/// ends listening does so; a key other than Escape is offered as a binding
/// first.  Other events change nothing.
pub open spec fn after_key_events(s: CaptureView, events: Seq<KeyEvent>, p: Prefs) -> (
    CaptureView,
    Seq<BindingChange>,
) {
    match first_handled(s, events, 0) {
        None => (s, seq![]),
        Some(i) => {
            let e = events[i as int];
            if e.key == Key::Escape {
                (CaptureView { listening: None, ..s }, seq![])
            } else {
                let (s2, _, changes) = offer_binding(
                    s,
                    s.listening->0,
                    binding_from_key(e.key, e.modifiers),
                    p,
                );
                (CaptureView { listening: None, ..s2 }, changes)
            }
        },
    }
}

/// The changes that confirming a pending binding makes: the conflicting
/// binding, if any, is cleared first, then the target takes the binding.
pub open spec fn pending_changes(pending: Option<PendingBinding>) -> Seq<BindingChange> {
    match pending {
        None => Seq::<BindingChange>::empty(),
        Some(p) => match p.conflicting_id {
            Some(c) => seq![
                (super::field_of_index(c), Binding { code: 0, mods: 0 }),
                (super::field_of_index(p.target_id), p.binding),
            ],
            None => seq![(super::field_of_index(p.target_id), p.binding)],
        },
    }
}

/// The conflict dialog is shown exactly while a conflicting binding waits for
/// the user's answer.
pub open spec fn dialog_matches_pending(s: CaptureView) -> bool {
    s.modal.show == (s.modal.pending is Some)
}

/// Every step of key capture keeps the conflict dialog shown exactly while a
/// conflicting binding is pending: offering a binding, a key code while
/// listening (Escape included), a change of the held modifiers, and the key
/// events of a frame.
pub proof fn lemma_capture_steps_keep_dialog_matching_pending(
    s: CaptureView,
    listen_id: usize,
    b: Binding,
    code: u32,
    mods: u8,
    events: Seq<KeyEvent>,
    p: Prefs,
)
    requires
        dialog_matches_pending(s),
    ensures
        dialog_matches_pending(offer_binding(s, listen_id, b, p).0),
        dialog_matches_pending(after_key_code(s, code, mods, p).0),
        dialog_matches_pending(after_modifiers(s, mods, p).0),
        dialog_matches_pending(after_key_events(s, events, p).0),
{
}

/// Keybind capture handler: listening state, last modifiers, conflict dialog.
pub struct KeybindCaptureHandler {
    listening: Option<usize>,
    last_mods: u8,
    conflict_modal: ConflictModalState,
}

impl View for KeybindCaptureHandler {
    type V = CaptureView;

    closed spec fn view(&self) -> CaptureView {
        CaptureView {
            listening: self.listening,
            last_mods: self.last_mods,
            modal: self.conflict_modal@,
        }
    }
}

impl KeybindCaptureHandler {
    /// The conflict dialog is shown exactly while a binding is pending, in
    /// every state a handler reaches.
    #[verifier::type_invariant]
    pub open spec fn dialog_agrees_with_pending(self) -> bool {
        dialog_matches_pending(self@)
    }
}

/// The state is that of a fresh handler.
pub open spec fn idle_capture(s: CaptureView) -> bool {
    s.listening is None && s.last_mods == 0 && conflict_modal::cleared_modal(s.modal)
}

impl KeybindCaptureHandler {
    /// A handler that is not listening, with a hidden dialog.
    pub fn new() -> (h: Self)
        ensures
            idle_capture(h@),
            dialog_matches_pending(h@),
    {
        Self { listening: None, last_mods: 0, conflict_modal: ConflictModalState::new() }
    }

    /// Starts listening for a new binding of `binding_id`.
    pub fn start_listening(&mut self, binding_id: usize)
        ensures
            final(self)@ == (CaptureView { listening: Some(binding_id), last_mods: 0, ..old(self)@ }),
            dialog_matches_pending(final(self)@),
    {
        proof {
            use_type_invariant(&*self);
        }
        self.listening = Some(binding_id);
        self.last_mods = 0;
    }

    /// Stops listening.
    pub fn stop_listening(&mut self)
        ensures
            final(self)@ == (CaptureView { listening: None, last_mods: 0, ..old(self)@ }),
            dialog_matches_pending(final(self)@),
    {
        proof {
            use_type_invariant(&*self);
        }
        self.listening = None;
        self.last_mods = 0;
    }

    /// Whether a binding is being listened for.
    pub fn is_listening(&self) -> (b: bool)
        ensures
            b == self@.listening is Some,
    {
        self.listening.is_some()
    }

    /// The numeric id of the binding being listened for.
    pub fn listening_id(&self) -> (id: Option<usize>)
        ensures
            id == self@.listening,
    {
        self.listening
    }

    /// The modifier bits seen last while listening.
    pub fn last_mods(&self) -> (m: u8)
        ensures
            m == self@.last_mods,
    {
        self.last_mods
    }

    /// The conflict dialog state.
    pub fn conflict_modal(&self) -> (m: &ConflictModalState)
        ensures
            m@ == self@.modal,
            dialog_matches_pending(self@),
    {
        proof {
            use_type_invariant(self);
        }
        &self.conflict_modal
    }

    /// The label of a numeric binding id, or `Unknown`.
    pub fn get_key_name(id: usize) -> (s: &'static str)
        ensures
            types::binding_at(id) matches Some(b) ==> s@ == types::binding_display_name(b),
            types::binding_at(id) is None ==> s@ == "Unknown"@,
    {
        match BindingId::from_usize(id) {
            Some(bid) => bid.display_name(),
            None => "Unknown",
        }
    }

    /// Shows the dialog for a conflict between `binding`, asked for
    /// `listen_id`, and the binding `c`.
    fn show_conflict(&mut self, listen_id: usize, binding: Binding, c: BindingId)
        ensures
            final(self)@ == (CaptureView { modal: conflict_dialog(listen_id, binding, c), ..old(self)@ }),
    {
        let conflict_id = c.to_usize();
        let pending = PendingBinding { target_id: listen_id, binding, conflicting_id: Some(conflict_id) };
        let name = string_from_str(c.display_name());
        let desc = binding_label(&binding);
        let mut modal = ConflictModalState::new();
        std::mem::swap(&mut modal, &mut self.conflict_modal);
        modal.show(pending, name, desc);
        self.conflict_modal = modal;
        assert(self@.modal == conflict_dialog(listen_id, binding, c));
    }

    /// Offers a binding for `listen_id` (an id 0-5).
    fn offer(&mut self, listen_id: usize, binding: Binding, staged_prefs: &Prefs) -> (r: (
        bool,
        Vec<BindingChange>,
    ))
        requires
            listen_id < 6,
        ensures
            (final(self)@, r.0, r.1@) == offer_binding(old(self)@, listen_id, binding, *staged_prefs),
    {
        let registry = BindingRegistry::from_prefs(staged_prefs);
        let exclude_id = match BindingId::from_usize(listen_id) {
            Some(id) => id,
            None => {
                return (false, Vec::new());
            },
        };
        match registry.find_conflict(&binding, exclude_id) {
            Some(c) => {
                self.show_conflict(listen_id, binding, c);
                (true, Vec::new())
            },
            None => {
                let mut changes: Vec<BindingChange> = Vec::new();
                changes.push((field_for_index(listen_id), binding));
                (true, changes)
            },
        }
    }

    /// Applies a resolved key code with modifier bits (Ctrl = 1, Shift = 2,
    /// Alt = 4) while listening (see `after_key_code`).  Returns whether the
    /// key was consumed, and the binding changes.
    pub fn apply_key_code_while_listening(
        &mut self,
        code: u32,
        mods_bits: u8,
        staged_prefs: &Prefs,
    ) -> (r: (bool, Vec<BindingChange>))
        requires
            old(self)@.listening matches Some(id) ==> (code != escape_code() ==> id < 6),
        ensures
            (final(self)@, r.0, r.1@) == after_key_code(old(self)@, code, mods_bits, *staged_prefs),
            dialog_matches_pending(final(self)@),
    {
        proof {
            use_type_invariant(&*self);
        }
        let listen_id = match self.listening {
            Some(id) => id,
            None => return (false, Vec::new()),
        };
        if code == 0x200 {
            self.cancel_pending_binding();
            self.listening = None;
            return (true, Vec::new());
        }
        // A modifier key pressed alone and any other key alike keep the
        // modifier bits they were pressed with.
        let binding = Binding::new(code, mods_bits);
        let r = self.offer(listen_id, binding, staged_prefs);
        self.listening = None;
        r
    }

    /// A change of the held modifiers while listening (see
    /// `after_modifiers`).  Returns whether a binding was applied or the
    /// conflict dialog shown, and the binding changes.
    pub fn capture_modifier_if_listening(&mut self, cur_mods: u8, staged_prefs: &Prefs) -> (r: (
        bool,
        Vec<BindingChange>,
    ))
        requires
            old(self)@.listening matches Some(id) ==> (cur_mods != old(self)@.last_mods
                && old(self)@.last_mods == 0 && (cur_mods == 1 || cur_mods == 2 || cur_mods == 4)
                ==> id < 6),
        ensures
            (final(self)@, r.0, r.1@) == after_modifiers(old(self)@, cur_mods, *staged_prefs),
            dialog_matches_pending(final(self)@),
    {
        proof {
            use_type_invariant(&*self);
        }
        let listen_id = match self.listening {
            Some(id) => id,
            None => return (false, Vec::new()),
        };
        if cur_mods == self.last_mods {
            return (false, Vec::new());
        }
        if self.last_mods == 0 && (cur_mods == 1 || cur_mods == 2 || cur_mods == 4) {
            let code: u32 = if cur_mods == 1 {
                0x205
            } else if cur_mods == 2 {
                0x204
            } else {
                0x206
            };
            let binding = Binding::new(code, 0);
            let (consumed, changes) = self.offer(listen_id, binding, staged_prefs);
            if changes.len() > 0 {
                self.listening = None;
            }
            self.last_mods = cur_mods;
            return (consumed, changes);
        }
        self.last_mods = cur_mods;
        (false, Vec::new())
    }

    /// Converts held modifiers to binding modifier bits.
    pub fn modifiers_to_bits(modifiers: &Modifiers) -> (bits: u8)
        ensures
            bits == modifier_bits(*modifiers),
    {
        (if modifiers.ctrl {
            1u8
        } else {
            0u8
        }) + (if modifiers.shift {
            2u8
        } else {
            0u8
        }) + (if modifiers.alt {
            4u8
        } else {
            0u8
        })
    }

    /// The binding a key press makes (see `binding_from_key`).
    pub fn create_binding_from_key(key: &Key, modifiers: &Modifiers) -> (b: Binding)
        ensures
            b == binding_from_key(*key, *modifiers),
    {
        let mut code: u32 = key_to_code(key);
        let mut mods = Self::modifiers_to_bits(modifiers);
        if code == 0 {
            if mods == 1 {
                code = 0x205;
                mods = 0;
            } else if mods == 2 {
                code = 0x204;
                mods = 0;
            } else if mods == 4 {
                code = 0x206;
                mods = 0;
            }
        }
        Binding::new(code, mods)
    }

    /// Applies a binding for `listen_id`, or shows the conflict dialog.
    /// Returns false, changing nothing, for an id outside 0-5.
    pub fn apply_binding_or_show_conflict(
        &mut self,
        binding: Binding,
        listen_id: usize,
        staged_prefs: &Prefs,
    ) -> (r: (bool, Vec<BindingChange>))
        ensures
            listen_id >= 6 ==> final(self)@ == old(self)@ && !r.0 && r.1@ == Seq::<BindingChange>::empty(),
            listen_id < 6 ==> (final(self)@, r.0, r.1@) == offer_binding(old(self)@, listen_id, binding, *staged_prefs),
            dialog_matches_pending(final(self)@),
    {
        proof {
            use_type_invariant(&*self);
        }
        if listen_id >= 6 {
            return (false, Vec::new());
        }
        self.offer(listen_id, binding, staged_prefs)
    }

    /// Handles one key press while listening: Escape ends listening; another
    /// key is offered as a binding.  Returns whether listening should end.
    pub fn process_single_key(&mut self, key: &Key, modifiers: &Modifiers, staged_prefs: &Prefs) -> (r: (
        bool,
        Vec<BindingChange>,
    ))
        ensures
            *key == Key::Escape ==> final(self)@ == old(self)@ && r.0 && r.1@ == Seq::<BindingChange>::empty(),
            *key != Key::Escape && !(old(self)@.listening matches Some(id) && id < 6) ==> final(self)@
                == old(self)@ && !r.0 && r.1@ == Seq::<BindingChange>::empty(),
            *key != Key::Escape ==> (old(self)@.listening matches Some(id) ==> (id < 6 ==> (
                final(self)@,
                r.0,
                r.1@,
            ) == offer_binding(old(self)@, id, binding_from_key(*key, *modifiers), *staged_prefs))),
            dialog_matches_pending(final(self)@),
    {
        proof {
            use_type_invariant(&*self);
        }
        if *key == Key::Escape {
            return (true, Vec::new());
        }
        let listen_id = match self.listening {
            Some(id) => id,
            None => return (false, Vec::new()),
        };
        let binding = Self::create_binding_from_key(key, modifiers);
        self.apply_binding_or_show_conflict(binding, listen_id, staged_prefs)
    }

    /// Handles the key events of one frame (see `after_key_events`).
    pub fn process_key_events(&mut self, events: &[KeyEvent], staged_prefs: &Prefs) -> (changes: Vec<
        BindingChange,
    >)
        ensures
            (final(self)@, changes@) == after_key_events(old(self)@, events@, *staged_prefs),
            dialog_matches_pending(final(self)@),
    {
        proof {
            use_type_invariant(&*self);
        }
        let mut i: usize = 0;
        while i < events.len()
            invariant
                i <= events.len(),
                self@ == old(self)@,
                first_handled(old(self)@, events@, 0) == first_handled(old(self)@, events@, i as nat),
            decreases events.len() - i,
        {
            let ev = events[i];
            if ev.pressed {
                let (done, changes) = self.process_single_key(&ev.key, &ev.modifiers, staged_prefs);
                if done {
                    self.listening = None;
                    return changes;
                }
            }
            i = i + 1;
        }
        Vec::new()
    }

    /// Key capture for one frame while listening: a change of the held
    /// modifiers first, then the key events.
    pub fn handle_key_capture(&mut self, cur_mods: u8, events: &[KeyEvent], staged_prefs: &Prefs) -> (changes: Vec<
        BindingChange,
    >)
        requires
            old(self)@.listening matches Some(id) ==> (cur_mods != old(self)@.last_mods
                && old(self)@.last_mods == 0 && (cur_mods == 1 || cur_mods == 2 || cur_mods == 4)
                ==> id < 6),
        ensures
            old(self)@.listening is None ==> final(self)@ == old(self)@ && changes@ == Seq::<BindingChange>::empty(),
            old(self)@.listening is Some ==> ({
                let (s1, captured, c1) = after_modifiers(old(self)@, cur_mods, *staged_prefs);
                if captured {
                    final(self)@ == s1 && changes@ == c1
                } else {
                    (final(self)@, changes@) == after_key_events(s1, events@, *staged_prefs)
                }
            }),
            dialog_matches_pending(final(self)@),
    {
        proof {
            use_type_invariant(&*self);
        }
        if self.listening.is_none() {
            return Vec::new();
        }
        let (captured, changes) = self.capture_modifier_if_listening(cur_mods, staged_prefs);
        if captured {
            return changes;
        }
        self.process_key_events(events, staged_prefs)
    }

    /// Whether a conflicting binding awaits the user's answer.
    pub fn has_pending_binding(&self) -> (b: bool)
        ensures
            b == self@.modal.show,
            b == self@.modal.pending is Some,
    {
        proof {
            use_type_invariant(self);
        }
        self.conflict_modal.is_visible()
    }

    /// Applies the pending binding after the user confirmed: the conflicting
    /// binding is cleared, then the target takes the new binding; the dialog
    /// is hidden.
    pub fn apply_pending(&mut self) -> (changes: Vec<BindingChange>)
        ensures
            final(self)@.listening == old(self)@.listening,
            final(self)@.last_mods == old(self)@.last_mods,
            !final(self)@.modal.show,
            final(self)@.modal.pending is None,
            final(self)@.modal.key_name == old(self)@.modal.key_name,
            final(self)@.modal.binding_desc == old(self)@.modal.binding_desc,
            changes@ == pending_changes(old(self)@.modal.pending),
            dialog_matches_pending(final(self)@),
    {
        let mut changes: Vec<BindingChange> = Vec::new();
        let mut modal = ConflictModalState::new();
        std::mem::swap(&mut modal, &mut self.conflict_modal);
        if let Some(pending) = modal.take_pending() {
            if let Some(conflict_id) = pending.conflicting_id {
                changes.push((field_for_index(conflict_id), Binding::new(0, 0)));
            }
            changes.push((field_for_index(pending.target_id), pending.binding));
        }
        modal.hide_dialog();
        self.conflict_modal = modal;
        assert(changes@ =~= pending_changes(old(self)@.modal.pending));
        changes
    }

    /// Cancels the pending binding: the dialog is cleared.
    pub fn cancel_pending_binding(&mut self)
        ensures
            final(self)@.listening == old(self)@.listening,
            final(self)@.last_mods == old(self)@.last_mods,
            conflict_modal::cleared_modal(final(self)@.modal),
            dialog_matches_pending(final(self)@),
    {
        self.conflict_modal = ConflictModalState::new();
    }

    /// Hands out the dialog state when the dialog is shown, leaving a cleared
    /// one behind.
    pub fn take_conflict_modal(&mut self) -> (m: Option<ConflictModalState>)
        ensures
            old(self)@.modal.show ==> (m matches Some(mm) && mm@ == old(self)@.modal
                && conflict_modal::cleared_modal(final(self)@.modal) && final(self)@.listening
                == old(self)@.listening && final(self)@.last_mods == old(self)@.last_mods),
            !old(self)@.modal.show ==> m is None && final(self)@ == old(self)@,
            dialog_matches_pending(final(self)@),
    {
        proof {
            use_type_invariant(&*self);
        }
        if self.conflict_modal.is_visible() {
            let mut taken = ConflictModalState::new();
            std::mem::swap(&mut taken, &mut self.conflict_modal);
            Some(taken)
        } else {
            None
        }
    }
}

impl Default for KeybindCaptureHandler {
    fn default() -> (h: Self)
        ensures
            idle_capture(h@),
            dialog_matches_pending(h@),
    {
        Self::new()
    }
}

} // verus!
