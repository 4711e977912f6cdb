//! Which screen is shown: the registered screen names, the active screen and
//! whether the menus are visible.  Showing and hiding screens also tells the
//! caller which screens to notify (`on_hide` / `on_show`).

use crate::text::string_from_str;
use vstd::prelude::*;

verus! {

/// What the screen registry holds.
pub struct ScreensView {
    /// The registered screen names, in registration order, each once.
    pub names: Seq<Seq<char>>,
    /// The active screen.
    pub active: Option<Seq<char>>,
    /// Whether the menus are visible.
    pub visible: bool,
}

/// The screens to notify after a change: the one hidden and the one shown.
pub struct ScreenTransition {
    pub hidden: Option<String>,
    pub shown: Option<String>,
}

/// The texts of a list of strings.
pub open spec fn texts(v: Seq<String>) -> Seq<Seq<char>> {
    Seq::new(v.len(), |i: int| v[i]@)
}

/// The text of an optional string.
pub open spec fn opt_text(s: Option<String>) -> Option<Seq<char>> {
    match s {
        Some(t) => Some(t@),
        None => None,
    }
}

/// The names of the screens registered at start: the start menu, the
/// settings menu and the New World menu.
pub open spec fn default_screens() -> Seq<Seq<char>> {
    seq!["start"@, "settings"@, "new_world"@]
}

/// The registry's invariant: names are distinct and the active screen is
/// registered.
pub open spec fn screens_wf(v: ScreensView) -> bool {
    &&& forall|i: int, j: int| 0 <= i < j < v.names.len() ==> v.names[i] != v.names[j]
    &&& (v.active matches Some(a) ==> v.names.contains(a))
}

/// The screen registry of the UI.
pub struct UiScreens {
    names: Vec<String>,
    active_screen: Option<String>,
    visible: bool,
}

impl View for UiScreens {
    type V = ScreensView;

    closed spec fn view(&self) -> ScreensView {
        ScreensView {
            names: texts(self.names@),
            active: opt_text(self.active_screen),
            visible: self.visible,
        }
    }
}

impl UiScreens {
    #[verifier::type_invariant]
    spec fn inv(&self) -> bool {
        screens_wf(self@)
    }

    /// The registry of the default screens, showing the start menu.
    pub fn new() -> (s: Self)
        ensures
            s@.names == default_screens(),
            s@.active == Some("start"@),
            s@.visible,
    {
        let mut names: Vec<String> = Vec::new();
        names.push(string_from_str("start"));
        names.push(string_from_str("settings"));
        names.push(string_from_str("new_world"));
        proof {
            reveal_strlit("start");
            reveal_strlit("settings");
            reveal_strlit("new_world");
        }
        assert(texts(names@) =~= default_screens());
        let active = Some(string_from_str("start"));
        assert(texts(names@)[0] == "start"@);
        assert("start"@.len() == 5 && "settings"@.len() == 8 && "new_world"@.len() == 9);
        assert(texts(names@).contains("start"@));
        Self { names, active_screen: active, visible: true }
    }

    /// The position of a name, if registered.
    fn position(&self, name: &str) -> (p: Option<usize>)
        ensures
            match p {
                Some(i) => i < self@.names.len() && self@.names[i as int] == name@,
                None => !self@.names.contains(name@),
            },
    {
        let target = string_from_str(name);
        let mut i: usize = 0;
        while i < self.names.len()
            invariant
                i <= self.names@.len(),
                target@ == name@,
                forall|k: int| 0 <= k < i ==> self.names@[k]@ != name@,
            decreases self.names.len() - i,
        {
            if self.names[i] == target {
                return Some(i);
            }
            i = i + 1;
        }
        assert(!texts(self.names@).contains(name@)) by {
            if texts(self.names@).contains(name@) {
                let k = choose|k: int| 0 <= k < texts(self.names@).len() && texts(self.names@)[k] == name@;
                assert(self.names@[k]@ == name@);
            }
        }
        None
    }

    /// Whether a screen of this name is registered.
    pub fn has_screen(&self, name: &str) -> (b: bool)
        ensures
            b == self@.names.contains(name@),
    {
        self.position(name).is_some()
    }

    /// Registers a screen name (a name registered already stays once).
    pub fn add_screen(&mut self, name: String)
        ensures
            final(self)@.names == (if old(self)@.names.contains(name@) {
                old(self)@.names
            } else {
                old(self)@.names.push(name@)
            }),
            final(self)@.active == old(self)@.active,
            final(self)@.visible == old(self)@.visible,
    {
        proof {
            use_type_invariant(&*self);
        }
        if self.position(name.as_str()).is_none() {
            let ghost before = texts(self.names@);
            let ghost n = name@;
            proof {
                assert forall|i: int, j: int|
                    0 <= i < j < before.push(n).len() implies before.push(n)[i] != before.push(n)[j] by {
                    if j == before.len() {
                        assert(before[i] == before.push(n)[i]);
                    }
                }
                if let Some(a) = opt_text(self.active_screen) {
                    let k = choose|k: int| 0 <= k < before.len() && before[k] == a;
                    assert(before.push(n)[k] == a);
                }
            }
            let mut active: Option<String> = None;
            std::mem::swap(&mut active, &mut self.active_screen);
            let mut names: Vec<String> = Vec::new();
            std::mem::swap(&mut names, &mut self.names);
            names.push(name);
            assert(texts(names@) =~= before.push(n));
            std::mem::swap(&mut names, &mut self.names);
            std::mem::swap(&mut active, &mut self.active_screen);
        }
    }

    /// Shows a registered screen: the active screen is hidden, this one
    /// becomes active and the menus visible.  An unregistered name changes
    /// nothing.  Returns whether the screen was shown and the screens to
    /// notify.
    pub fn show_screen(&mut self, name: &str) -> (r: (bool, ScreenTransition))
        ensures
            r.0 == old(self)@.names.contains(name@),
            !r.0 ==> final(self)@ == old(self)@ && r.1.hidden is None && r.1.shown is None,
            r.0 ==> final(self)@ == (ScreensView {
                active: Some(name@),
                visible: true,
                ..old(self)@
            }) && opt_text(r.1.hidden) == old(self)@.active && opt_text(r.1.shown) == Some(name@),
    {
        proof {
            use_type_invariant(&*self);
        }
        if self.position(name).is_none() {
            return (false, ScreenTransition { hidden: None, shown: None });
        }
        let mut hidden: Option<String> = Some(string_from_str(name));
        std::mem::swap(&mut hidden, &mut self.active_screen);
        self.visible = true;
        (true, ScreenTransition { hidden, shown: Some(string_from_str(name)) })
    }

    /// Hides every screen: the active one is hidden (and returned for
    /// notifying), none is active, and the menus are invisible.
    pub fn hide_all(&mut self) -> (hidden: Option<String>)
        ensures
            opt_text(hidden) == old(self)@.active,
            final(self)@ == (ScreensView { active: None, visible: false, ..old(self)@ }),
    {
        proof {
            use_type_invariant(&*self);
        }
        let mut hidden: Option<String> = None;
        std::mem::swap(&mut hidden, &mut self.active_screen);
        self.visible = false;
        hidden
    }

    /// The name of the active screen.
    pub fn active_screen_name(&self) -> (n: Option<&str>)
        ensures
            match n {
                Some(s) => self@.active == Some(s@),
                None => self@.active is None,
            },
    {
        match &self.active_screen {
            Some(s) => Some(s.as_str()),
            None => None,
        }
    }

    /// Whether the screen of this name is the active one.
    pub fn is_screen_active(&self, name: &str) -> (b: bool)
        ensures
            b == (self@.active == Some(name@)),
    {
        match &self.active_screen {
            Some(s) => {
                let target = string_from_str(name);
                *s == target
            },
            None => false,
        }
    }

    /// Whether the menus are visible.  (Every registry keeps its names
    /// distinct and its active screen registered.)
    pub fn is_visible(&self) -> (b: bool)
        ensures
            b == self@.visible,
            screens_wf(self@),
    {
        proof {
            use_type_invariant(self);
        }
        self.visible
    }

    /// Shows or hides the menus.
    pub fn set_visible(&mut self, visible: bool)
        ensures
            final(self)@ == (ScreensView { visible, ..old(self)@ }),
    {
        proof {
            use_type_invariant(&*self);
        }
        self.visible = visible;
    }
}

} // verus!
