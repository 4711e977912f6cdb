//! Saved and staged preferences of the settings menu, with the fields that
//! carry unsaved changes.

use super::SettingsField;
use crate::prefs::{Binding, Prefs};
use vstd::prelude::*;

verus! {

/// What the settings state holds: the last saved preferences, the staged
/// (working) copy, and the fields marked as changed.
pub struct SettingsStateView {
    pub prefs: Prefs,
    pub staged: Prefs,
    pub dirty: Set<SettingsField>,
}

/// The position of a field in the dirty flags.
pub open spec fn field_index(f: SettingsField) -> int {
    match f {
        SettingsField::KeyW => 0,
        SettingsField::KeyA => 1,
        SettingsField::KeyS => 2,
        SettingsField::KeyD => 3,
        SettingsField::KeyUp => 4,
        SettingsField::KeyDown => 5,
        SettingsField::MouseSensitivity => 6,
        SettingsField::InputFiltering => 7,
        SettingsField::AudioSoundEffect => 8,
        SettingsField::AudioMusic => 9,
        SettingsField::AudioUI => 10,
        SettingsField::AudioVoice => 11,
    }
}

/// The binding a preferences record holds for a settings field; no binding
/// for the fields that are not key bindings.
pub open spec fn field_binding(p: Prefs, f: SettingsField) -> Binding {
    match f {
        SettingsField::KeyW => p.key_w,
        SettingsField::KeyA => p.key_a,
        SettingsField::KeyS => p.key_s,
        SettingsField::KeyD => p.key_d,
        SettingsField::KeyUp => p.key_up,
        SettingsField::KeyDown => p.key_down,
        _ => Binding { code: 0, mods: 0 },
    }
}

/// A preferences record with the binding of a field replaced (unchanged for
/// the fields that are not key bindings).
pub open spec fn with_field_binding(p: Prefs, f: SettingsField, b: Binding) -> Prefs {
    match f {
        SettingsField::KeyW => Prefs { key_w: b, ..p },
        SettingsField::KeyA => Prefs { key_a: b, ..p },
        SettingsField::KeyS => Prefs { key_s: b, ..p },
        SettingsField::KeyD => Prefs { key_d: b, ..p },
        SettingsField::KeyUp => Prefs { key_up: b, ..p },
        SettingsField::KeyDown => Prefs { key_down: b, ..p },
        _ => p,
    }
}

/// Staging one binding change: the staged binding changes and the field is
/// marked dirty.
pub open spec fn staged_with(s: SettingsStateView, f: SettingsField, b: Binding) -> SettingsStateView {
    SettingsStateView { staged: with_field_binding(s.staged, f, b), dirty: s.dirty.insert(f), ..s }
}

/// Staging a list of binding changes in order.
pub open spec fn staged_with_all(s: SettingsStateView, changes: Seq<(SettingsField, Binding)>) -> SettingsStateView
    decreases changes.len(),
{
    if changes.len() == 0 {
        s
    } else {
        staged_with_all(staged_with(s, changes[0].0, changes[0].1), changes.drop_first())
    }
}

/// Saved preferences, staged changes and dirty-field tracking of the
/// settings menu.
///
/// The dirty fields are kept as one flag per settings field, indexed by the
/// field's position, rather than in a hash set of fields.  There are exactly
/// twelve fields, so the flags hold every possible set of them; marking,
/// clearing and testing a field are then plain array operations whose
/// effect on the `Set` view is proved here.  A `HashSet<SettingsField>`
/// would have its contract rest on the `Hash` and `Eq` impls that `derive`
/// writes for the field type, which Verus does not read.
#[derive(Clone, Copy, Debug)]
pub struct SettingsState {
    prefs: Prefs,
    staged: Prefs,
    dirty_fields: [bool; 12],
}

impl View for SettingsState {
    type V = SettingsStateView;

    closed spec fn view(&self) -> SettingsStateView {
        SettingsStateView {
            prefs: self.prefs,
            staged: self.staged,
            dirty: Set::new(|f: SettingsField| self.dirty_fields[field_index(f)]),
        }
    }
}

/// The position of a field in the dirty flags.
fn field_slot(f: SettingsField) -> (i: usize)
    ensures
        i == field_index(f),
        i < 12,
{
    match f {
        SettingsField::KeyW => 0,
        SettingsField::KeyA => 1,
        SettingsField::KeyS => 2,
        SettingsField::KeyD => 3,
        SettingsField::KeyUp => 4,
        SettingsField::KeyDown => 5,
        SettingsField::MouseSensitivity => 6,
        SettingsField::InputFiltering => 7,
        SettingsField::AudioSoundEffect => 8,
        SettingsField::AudioMusic => 9,
        SettingsField::AudioUI => 10,
        SettingsField::AudioVoice => 11,
    }
}

/// Distinct fields have distinct positions.
proof fn lemma_field_index_injective(f: SettingsField, g: SettingsField)
    ensures
        field_index(f) == field_index(g) ==> f == g,
        0 <= field_index(f) < 12,
{
}

impl SettingsState {
    /// A state whose saved and staged preferences are `prefs`, with nothing
    /// dirty.
    pub fn from_prefs(prefs: Prefs) -> (s: Self)
        ensures
            s@.prefs == prefs,
            s@.staged == prefs,
            s@.dirty == Set::<SettingsField>::empty(),
    {
        let s = Self { prefs, staged: prefs, dirty_fields: [false; 12] };
        assert(s@.dirty =~= Set::<SettingsField>::empty());
        s
    }

    /// Whether any field has unsaved changes.
    pub fn is_dirty(&self) -> (b: bool)
        ensures
            b == (self@.dirty != Set::<SettingsField>::empty()),
    {
        let mut i: usize = 0;
        while i < 12
            invariant
                i <= 12,
                forall|k: int| 0 <= k < i ==> !self.dirty_fields[k],
            decreases 12 - i,
        {
            if self.dirty_fields[i] {
                proof {
                    let f = choose|f: SettingsField| field_index(f) == i;
                    assert(field_index(SettingsField::KeyW) == 0);
                    assert(field_index(SettingsField::KeyA) == 1);
                    assert(field_index(SettingsField::KeyS) == 2);
                    assert(field_index(SettingsField::KeyD) == 3);
                    assert(field_index(SettingsField::KeyUp) == 4);
                    assert(field_index(SettingsField::KeyDown) == 5);
                    assert(field_index(SettingsField::MouseSensitivity) == 6);
                    assert(field_index(SettingsField::InputFiltering) == 7);
                    assert(field_index(SettingsField::AudioSoundEffect) == 8);
                    assert(field_index(SettingsField::AudioMusic) == 9);
                    assert(field_index(SettingsField::AudioUI) == 10);
                    assert(field_index(SettingsField::AudioVoice) == 11);
                    assert(self@.dirty.contains(f));
                }
                return true;
            }
            i = i + 1;
        }
        assert(self@.dirty =~= Set::<SettingsField>::empty()) by {
            assert forall|f: SettingsField| !self@.dirty.contains(f) by {
                lemma_field_index_injective(f, f);
            }
        }
        false
    }

    /// Marks a field as changed.
    pub fn mark_dirty(&mut self, field: SettingsField)
        ensures
            final(self)@ == (SettingsStateView { dirty: old(self)@.dirty.insert(field), ..old(self)@ }),
    {
        let i = field_slot(field);
        self.dirty_fields[i] = true;
        assert(self@.dirty =~= old(self)@.dirty.insert(field)) by {
            assert forall|g: SettingsField| self@.dirty.contains(g) == old(self)@.dirty.insert(field).contains(g) by {
                lemma_field_index_injective(g, field);
            }
        }
    }

    /// Whether a field has unsaved changes.
    pub fn is_field_dirty(&self, field: SettingsField) -> (b: bool)
        ensures
            b == self@.dirty.contains(field),
    {
        self.dirty_fields[field_slot(field)]
    }

    /// The saved preferences.
    pub fn prefs(&self) -> (p: &Prefs)
        ensures
            *p == self@.prefs,
    {
        &self.prefs
    }

    /// The staged preferences.
    pub fn staged(&self) -> (p: &Prefs)
        ensures
            *p == self@.staged,
    {
        &self.staged
    }

    /// Mutable access to the staged preferences.
    pub fn staged_mut(&mut self) -> (p: &mut Prefs)
        ensures
            *p == old(self)@.staged,
            final(self)@ == (SettingsStateView { staged: *final(p), ..old(self)@ }),
    {
        &mut self.staged
    }

    /// Applies the staged changes once they have been written out:
    /// `save_result` is the outcome of writing the staged preferences.  On
    /// success the staged preferences become the saved ones and nothing is
    /// dirty; on failure the state is unchanged and the error is handed back.
    pub fn apply_changes<E>(&mut self, save_result: Result<(), E>) -> (r: Result<(), E>)
        ensures
            r == save_result,
            save_result is Ok ==> final(self)@.prefs == old(self)@.staged
                && final(self)@.staged == old(self)@.staged
                && final(self)@.dirty == Set::<SettingsField>::empty(),
            save_result is Err ==> final(self)@ == old(self)@,
    {
        if save_result.is_ok() {
            self.prefs = self.staged;
            self.dirty_fields = [false; 12];
            assert(self@.dirty =~= Set::<SettingsField>::empty());
        }
        save_result
    }

    /// Discards the staged changes: the staged preferences become the saved
    /// ones again and nothing is dirty.
    pub fn revert_changes(&mut self)
        ensures
            final(self)@.prefs == old(self)@.prefs,
            final(self)@.staged == old(self)@.prefs,
            final(self)@.dirty == Set::<SettingsField>::empty(),
    {
        self.staged = self.prefs;
        self.dirty_fields = [false; 12];
        assert(self@.dirty =~= Set::<SettingsField>::empty());
    }

    /// The staged binding of a field (no binding for other fields).
    pub fn get_staged_binding(&self, field: SettingsField) -> (b: Binding)
        ensures
            b == field_binding(self@.staged, field),
    {
        match field {
            SettingsField::KeyW => self.staged.key_w(),
            SettingsField::KeyA => self.staged.key_a(),
            SettingsField::KeyS => self.staged.key_s(),
            SettingsField::KeyD => self.staged.key_d(),
            SettingsField::KeyUp => self.staged.key_up(),
            SettingsField::KeyDown => self.staged.key_down(),
            _ => Binding::new(0, 0),
        }
    }

    /// Stages a binding for a field and marks the field dirty (fields that
    /// are not key bindings are only marked).
    pub fn set_staged_binding(&mut self, field: SettingsField, binding: Binding)
        ensures
            final(self)@ == staged_with(old(self)@, field, binding),
    {
        match field {
            SettingsField::KeyW => self.staged.set_key_w(binding),
            SettingsField::KeyA => self.staged.set_key_a(binding),
            SettingsField::KeyS => self.staged.set_key_s(binding),
            SettingsField::KeyD => self.staged.set_key_d(binding),
            SettingsField::KeyUp => self.staged.set_key_up(binding),
            SettingsField::KeyDown => self.staged.set_key_down(binding),
            _ => {},
        }
        self.mark_dirty(field);
    }

    /// Stages a list of binding changes in order.
    pub fn apply_binding_changes(&mut self, changes: &Vec<(SettingsField, Binding)>)
        ensures
            final(self)@ == staged_with_all(old(self)@, changes@),
    {
        let mut i: usize = 0;
        assert(changes@.skip(0) =~= changes@);
        while i < changes.len()
            invariant
                i <= changes.len(),
                staged_with_all(old(self)@, changes@) == staged_with_all(self@, changes@.skip(i as int)),
            decreases changes.len() - i,
        {
            let (f, b) = changes[i];
            assert(changes@.skip(i as int).drop_first() =~= changes@.skip(i + 1));
            self.set_staged_binding(f, b);
            i = i + 1;
        }
        assert(changes@.skip(changes.len() as int) =~= Seq::<(SettingsField, Binding)>::empty());
    }

    /// Whether the staged binding of a field differs from the saved one.
    pub fn is_binding_modified(&self, field: SettingsField) -> (b: bool)
        ensures
            b == (field_binding(self@.staged, field) != field_binding(self@.prefs, field)),
    {
        let staged = self.get_staged_binding(field);
        let saved = match field {
            SettingsField::KeyW => self.prefs.key_w(),
            SettingsField::KeyA => self.prefs.key_a(),
            SettingsField::KeyS => self.prefs.key_s(),
            SettingsField::KeyD => self.prefs.key_d(),
            SettingsField::KeyUp => self.prefs.key_up(),
            SettingsField::KeyDown => self.prefs.key_down(),
            _ => Binding::new(0, 0),
        };
        staged != saved
    }
}

} // verus!
