//! Identifiers of the settings tabs and of the configurable key bindings.

use vstd::prelude::*;

verus! {

/// The tabs of the Settings menu.
#[derive(Clone, Copy, Debug, PartialEq, Eq, Structural)]
pub enum SettingsTab {
    Controls,
    Audio,
}

impl Default for SettingsTab {
    /// The Controls tab is shown first.
    fn default() -> (t: Self)
        ensures
            t == SettingsTab::Controls,
    {
        SettingsTab::Controls
    }
}

impl SettingsTab {
    /// The tab at a zero-based index (0 = Controls, 1 = Audio); Controls for
    /// any other index.
    pub fn from_index(index: usize) -> (t: Self)
        ensures
            t == (if index == 1 {
                SettingsTab::Audio
            } else {
                SettingsTab::Controls
            }),
    {
        match index {
            0 => SettingsTab::Controls,
            1 => SettingsTab::Audio,
            _ => SettingsTab::Controls,
        }
    }

    /// The zero-based index of the tab.
    pub fn to_index(self) -> (i: usize)
        ensures
            i == (match self {
                SettingsTab::Controls => 0usize,
                SettingsTab::Audio => 1usize,
            }),
    {
        match self {
            SettingsTab::Controls => 0,
            SettingsTab::Audio => 1,
        }
    }

    /// The tab labels in display order.
    pub fn all_tabs() -> (tabs: &'static [&'static str])
        ensures
            tabs@.len() == 2,
            tabs@[0]@ == "Controls"@,
            tabs@[1]@ == "Audio"@,
    {
        &["Controls", "Audio"]
    }
}

/// Identifier of a configurable key binding.
#[derive(Clone, Copy, Debug, PartialEq, Eq, Hash, Structural)]
pub enum BindingId {
    KeyW,
    KeyA,
    KeyS,
    KeyD,
    KeyUp,
    KeyDown,
}

/// The numeric id (0-5) of a binding.
pub open spec fn binding_index(id: BindingId) -> usize {
    match id {
        BindingId::KeyW => 0,
        BindingId::KeyA => 1,
        BindingId::KeyS => 2,
        BindingId::KeyD => 3,
        BindingId::KeyUp => 4,
        BindingId::KeyDown => 5,
    }
}

/// The binding with a numeric id, if the id is one (0-5).
pub open spec fn binding_at(index: usize) -> Option<BindingId> {
    if index == 0 {
        Some(BindingId::KeyW)
    } else if index == 1 {
        Some(BindingId::KeyA)
    } else if index == 2 {
        Some(BindingId::KeyS)
    } else if index == 3 {
        Some(BindingId::KeyD)
    } else if index == 4 {
        Some(BindingId::KeyUp)
    } else if index == 5 {
        Some(BindingId::KeyDown)
    } else {
        None
    }
}

/// The label each binding has in the settings screen.
pub open spec fn binding_display_name(id: BindingId) -> Seq<char> {
    match id {
        BindingId::KeyW => "Move Forward"@,
        BindingId::KeyA => "Move Left"@,
        BindingId::KeyS => "Move Back"@,
        BindingId::KeyD => "Move Right"@,
        BindingId::KeyUp => "Move Up"@,
        BindingId::KeyDown => "Move Down"@,
    }
}

/// Numeric ids and bindings correspond one to one.
pub proof fn lemma_binding_index_round_trip(id: BindingId, index: usize)
    ensures
        binding_at(binding_index(id)) == Some(id),
        binding_at(index) matches Some(b) ==> binding_index(b) == index,
        binding_at(index) is Some <==> index < 6,
{
}

impl BindingId {
    /// The numeric id (0-5).
    pub fn to_usize(self) -> (i: usize)
        ensures
            i == binding_index(self),
    {
        match self {
            BindingId::KeyW => 0,
            BindingId::KeyA => 1,
            BindingId::KeyS => 2,
            BindingId::KeyD => 3,
            BindingId::KeyUp => 4,
            BindingId::KeyDown => 5,
        }
    }

    /// The binding with a numeric id, or None when the id is out of range.
    pub fn from_usize(id: usize) -> (b: Option<Self>)
        ensures
            b == binding_at(id),
    {
        match id {
            0 => Some(BindingId::KeyW),
            1 => Some(BindingId::KeyA),
            2 => Some(BindingId::KeyS),
            3 => Some(BindingId::KeyD),
            4 => Some(BindingId::KeyUp),
            5 => Some(BindingId::KeyDown),
            _ => None,
        }
    }

    /// The binding being listened for, by its numeric id.
    pub fn from_listen_id(id: usize) -> (b: Option<Self>)
        ensures
            b == binding_at(id),
    {
        Self::from_usize(id)
    }

    /// The label of the binding in the settings screen.
    pub fn display_name(self) -> (s: &'static str)
        ensures
            s@ == binding_display_name(self),
    {
        match self {
            BindingId::KeyW => "Move Forward",
            BindingId::KeyA => "Move Left",
            BindingId::KeyS => "Move Back",
            BindingId::KeyD => "Move Right",
            BindingId::KeyUp => "Move Up",
            BindingId::KeyDown => "Move Down",
        }
    }

    /// All bindings in numeric order.
    pub fn all() -> (ids: [BindingId; 6])
        ensures
            forall|i: int| 0 <= i < 6 ==> binding_index(#[trigger] ids[i]) == i,
    {
        [
            BindingId::KeyW,
            BindingId::KeyA,
            BindingId::KeyS,
            BindingId::KeyD,
            BindingId::KeyUp,
            BindingId::KeyDown,
        ]
    }
}

} // verus!
