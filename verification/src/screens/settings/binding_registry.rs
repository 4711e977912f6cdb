//! Registry of the configurable key bindings, with conflict detection.

use super::types::{self, BindingId};
use crate::prefs::{Binding, Prefs};
use vstd::prelude::*;

verus! {

/// The binding a preferences record holds for a binding id.
pub open spec fn prefs_binding(p: Prefs, id: BindingId) -> Binding {
    match id {
        BindingId::KeyW => p.key_w,
        BindingId::KeyA => p.key_a,
        BindingId::KeyS => p.key_s,
        BindingId::KeyD => p.key_d,
        BindingId::KeyUp => p.key_up,
        BindingId::KeyDown => p.key_down,
    }
}

/// A preferences record with the binding for `id` replaced.
pub open spec fn with_prefs_binding(p: Prefs, id: BindingId, b: Binding) -> Prefs {
    match id {
        BindingId::KeyW => Prefs { key_w: b, ..p },
        BindingId::KeyA => Prefs { key_a: b, ..p },
        BindingId::KeyS => Prefs { key_s: b, ..p },
        BindingId::KeyD => Prefs { key_d: b, ..p },
        BindingId::KeyUp => Prefs { key_up: b, ..p },
        BindingId::KeyDown => Prefs { key_down: b, ..p },
    }
}

/// The six bindings of a preferences record, in numeric order.
pub open spec fn prefs_bindings(p: Prefs) -> Seq<Binding> {
    seq![p.key_w, p.key_a, p.key_s, p.key_d, p.key_up, p.key_down]
}

/// The first binding id, other than `exclude`, whose binding equals `b`;
/// none for an unbound key (code 0).
pub open spec fn first_conflict(bindings: Seq<Binding>, b: Binding, exclude: BindingId) -> Option<
    BindingId,
> {
    if b.code == 0 {
        None
    } else {
        first_conflict_from(bindings, b, exclude, 0)
    }
}

/// `first_conflict` searching from position `i`.
pub open spec fn first_conflict_from(
    bindings: Seq<Binding>,
    b: Binding,
    exclude: BindingId,
    i: nat,
) -> Option<BindingId>
    decreases bindings.len() - i,
{
    if i >= bindings.len() || i >= 6 {
        None
    } else if types::binding_at(i as usize) != Some(exclude) && bindings[i as int] == b {
        types::binding_at(i as usize)
    } else {
        first_conflict_from(bindings, b, exclude, i + 1)
    }
}

/// Conflict detection is sound and complete: a conflict it reports is
/// another binding (never `exclude`) that holds exactly the asked-for
/// binding, which is bound (code not 0); when it reports none, no binding
/// other than `exclude` holds a bound asked-for binding.
pub proof fn lemma_conflict_sound_and_complete(bindings: Seq<Binding>, b: Binding, exclude: BindingId)
    requires
        bindings.len() == 6,
    ensures
        first_conflict(bindings, b, exclude) matches Some(id) ==> id != exclude && b.code != 0
            && bindings[types::binding_index(id) as int] == b,
        first_conflict(bindings, b, exclude) is None ==> b.code == 0 || forall|i: int|
            0 <= i < 6 && types::binding_at(i as usize) != Some(exclude) ==> bindings[i] != b,
{
    if b.code != 0 {
        lemma_conflict_from(bindings, b, exclude, 0);
    }
}

/// `first_conflict_from` finds the first match at or after `i`.
proof fn lemma_conflict_from(bindings: Seq<Binding>, b: Binding, exclude: BindingId, i: nat)
    requires
        bindings.len() == 6,
        i <= 6,
    ensures
        first_conflict_from(bindings, b, exclude, i) matches Some(id) ==> id != exclude
            && bindings[types::binding_index(id) as int] == b,
        first_conflict_from(bindings, b, exclude, i) is None ==> forall|k: int|
            i <= k < 6 && types::binding_at(k as usize) != Some(exclude) ==> bindings[k] != b,
    decreases 6 - i,
{
    if i < 6 {
        lemma_conflict_from(bindings, b, exclude, i + 1);
        types::lemma_binding_index_round_trip(BindingId::KeyW, i as usize);
    }
}

/// Writing back a registry made from preferences leaves them unchanged.
pub proof fn lemma_registry_round_trip(p: Prefs)
    ensures
        (Prefs {
            key_w: prefs_bindings(p)[0],
            key_a: prefs_bindings(p)[1],
            key_s: prefs_bindings(p)[2],
            key_d: prefs_bindings(p)[3],
            key_up: prefs_bindings(p)[4],
            key_down: prefs_bindings(p)[5],
            ..p
        }) == p,
{
}

/// After a binding is updated, reading it gives the new binding and the
/// other bindings are unchanged.
pub proof fn lemma_update_then_get(bindings: Seq<Binding>, id: BindingId, b: Binding, other: BindingId)
    requires
        bindings.len() == 6,
    ensures
        bindings.update(types::binding_index(id) as int, b)[types::binding_index(id) as int] == b,
        other != id ==> bindings.update(types::binding_index(id) as int, b)[types::binding_index(
            other,
        ) as int] == bindings[types::binding_index(other) as int],
{
    types::lemma_binding_index_round_trip(id, 0);
    types::lemma_binding_index_round_trip(other, 0);
}

/// Registry that manages the six key bindings and finds conflicts between
/// them.  Its entries are the bindings in numeric order.
#[derive(Clone, Copy, Debug)]
pub struct BindingRegistry {
    bindings: [(BindingId, Binding); 6],
}

impl View for BindingRegistry {
    type V = Seq<Binding>;

    closed spec fn view(&self) -> Seq<Binding> {
        self.bindings@.map_values(|e: (BindingId, Binding)| e.1)
    }
}

impl BindingRegistry {
    /// The entries pair each binding id with its binding, in numeric order.
    #[verifier::type_invariant]
    closed spec fn ids_in_order(self) -> bool {
        forall|i: int| 0 <= i < 6 ==> types::binding_at(i as usize) == Some(#[trigger] self.bindings[i].0)
    }

    /// The registry holds six bindings.
    pub proof fn lemma_len(&self)
        ensures
            self@.len() == 6,
    {
    }

    /// A registry of the six bindings of the preferences.
    pub fn from_prefs(prefs: &Prefs) -> (r: Self)
        ensures
            r@ == prefs_bindings(*prefs),
    {
        let r = Self {
            bindings: [
                (BindingId::KeyW, prefs.key_w),
                (BindingId::KeyA, prefs.key_a),
                (BindingId::KeyS, prefs.key_s),
                (BindingId::KeyD, prefs.key_d),
                (BindingId::KeyUp, prefs.key_up),
                (BindingId::KeyDown, prefs.key_down),
            ],
        };
        assert(r@ =~= prefs_bindings(*prefs));
        r
    }

    /// Writes the six bindings back into the preferences.
    pub fn write_to_prefs(&self, prefs: &mut Prefs)
        ensures
            *final(prefs) == (Prefs {
                key_w: self@[0],
                key_a: self@[1],
                key_s: self@[2],
                key_d: self@[3],
                key_up: self@[4],
                key_down: self@[5],
                ..*old(prefs)
            }),
    {
        proof {
            use_type_invariant(self);
        }
        let mut i: usize = 0;
        while i < 6
            invariant
                i <= 6,
                forall|k: int| 0 <= k < 6 ==> types::binding_at(k as usize) == Some(#[trigger] self.bindings[k].0),
                *prefs == (Prefs {
                    key_w: if i > 0 { self@[0] } else { old(prefs).key_w },
                    key_a: if i > 1 { self@[1] } else { old(prefs).key_a },
                    key_s: if i > 2 { self@[2] } else { old(prefs).key_s },
                    key_d: if i > 3 { self@[3] } else { old(prefs).key_d },
                    key_up: if i > 4 { self@[4] } else { old(prefs).key_up },
                    key_down: if i > 5 { self@[5] } else { old(prefs).key_down },
                    ..*old(prefs)
                }),
            decreases 6 - i,
        {
            let (id, binding) = self.bindings[i];
            assert(types::binding_at(i) == Some(id));
            match id {
                BindingId::KeyW => prefs.key_w = binding,
                BindingId::KeyA => prefs.key_a = binding,
                BindingId::KeyS => prefs.key_s = binding,
                BindingId::KeyD => prefs.key_d = binding,
                BindingId::KeyUp => prefs.key_up = binding,
                BindingId::KeyDown => prefs.key_down = binding,
            }
            i = i + 1;
        }
    }

    /// The binding id, other than `exclude_id`, that already holds
    /// `new_binding`; the first such in numeric order.  Unbound keys (code 0)
    /// never conflict.
    pub fn find_conflict(&self, new_binding: &Binding, exclude_id: BindingId) -> (r: Option<
        BindingId,
    >)
        ensures
            r == first_conflict(self@, *new_binding, exclude_id),
    {
        proof {
            use_type_invariant(self);
        }
        if new_binding.code == 0 {
            return None;
        }
        let mut i: usize = 0;
        while i < 6
            invariant
                i <= 6,
                self@.len() == 6,
                forall|k: int| 0 <= k < 6 ==> types::binding_at(k as usize) == Some(#[trigger] self.bindings[k].0),
                first_conflict(self@, *new_binding, exclude_id) == first_conflict_from(
                    self@,
                    *new_binding,
                    exclude_id,
                    i as nat,
                ),
            decreases 6 - i,
        {
            let (id, binding) = self.bindings[i];
            assert(types::binding_at(i) == Some(id));
            assert(self@[i as int] == binding);
            if id != exclude_id && binding == *new_binding {
                return Some(id);
            }
            i = i + 1;
        }
        None
    }

    /// Replaces the binding of `id`.
    pub fn update_binding(&mut self, id: BindingId, new_binding: Binding)
        ensures
            final(self)@ == old(self)@.update(types::binding_index(id) as int, new_binding),
    {
        proof {
            use_type_invariant(&*self);
        }
        let k = id.to_usize();
        let ghost old_bindings = self.bindings@;
        let mut entries = self.bindings;
        entries[k] = (id, new_binding);
        assert(forall|i: int| 0 <= i < 6 ==> types::binding_at(i as usize) == Some(#[trigger] entries[i].0));
        self.bindings = entries;
        assert(self@ =~= old(self)@.update(types::binding_index(id) as int, new_binding));
    }

    /// The binding of `id`.
    pub fn get_binding(&self, id: BindingId) -> (b: Binding)
        ensures
            b == self@[types::binding_index(id) as int],
    {
        proof {
            use_type_invariant(self);
        }
        self.bindings[id.to_usize()].1
    }

    /// The entries, pairs of a binding id and its binding, in numeric order.
    pub fn iter(&self) -> (entries: &[(BindingId, Binding)])
        ensures
            entries@.len() == 6,
            forall|i: int|
                0 <= i < 6 ==> types::binding_at(i as usize) == Some(#[trigger] entries@[i].0)
                    && entries@[i].1 == self@[i],
    {
        proof {
            use_type_invariant(self);
        }
        self.bindings.as_slice()
    }
}

} // verus!
