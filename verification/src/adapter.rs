//! What the UI adapter shares with the application, and its decisions on
//! menu actions: the sound each action makes and when the menu music starts
//! and stops.

use crate::screens::MenuAction;
use crate::text::string_from_str;
use crate::ui_state::{ScreensView, UiScreens};
use vstd::prelude::*;

verus! {

/// The state of the game that decides what the UI draws.
#[derive(Clone, Copy, Debug, PartialEq, Eq, Structural)]
pub enum GameState {
    Menu,
    Playing,
    ConsoleOpen,
    Paused,
}

/// Sounds of UI interactions.
#[derive(Clone, Copy, Debug, PartialEq, Eq, Structural)]
pub enum UiAudioEvent {
    ButtonClick,
    MenuNavigate,
    Confirm,
    Cancel,
    Error,
}

/// What the UI draws in a frame.
#[derive(Clone, Copy, Debug, PartialEq, Eq, Structural)]
pub struct FrameLayers {
    /// The active menu screen.
    pub menu: bool,
    /// The heads-up overlays.
    pub overlays: bool,
    /// The debug console.
    pub console: bool,
    /// The pause message.
    pub pause: bool,
}

/// The layers drawn in each game state: the menu alone in the menus; the
/// overlays while playing, with the console when it is open and the pause
/// message when paused.
pub fn layers_for(state: GameState) -> (l: FrameLayers)
    ensures
        l.menu == (state == GameState::Menu),
        l.overlays == (state != GameState::Menu),
        l.console == (state == GameState::ConsoleOpen),
        l.pause == (state == GameState::Paused),
{
    match state {
        GameState::Menu => FrameLayers { menu: true, overlays: false, console: false, pause: false },
        GameState::ConsoleOpen => FrameLayers {
            menu: false,
            overlays: true,
            console: true,
            pause: false,
        },
        GameState::Paused => FrameLayers { menu: false, overlays: true, console: false, pause: true },
        GameState::Playing => FrameLayers {
            menu: false,
            overlays: true,
            console: false,
            pause: false,
        },
    }
}

/// Whether a change of game state opens the console, so that it must be
/// prepared for opening (see `Console::reset_on_open`).
pub fn opens_console(current: GameState, next: GameState) -> (b: bool)
    ensures
        b == (next == GameState::ConsoleOpen && current != GameState::ConsoleOpen),
{
    next == GameState::ConsoleOpen && current != GameState::ConsoleOpen
}

/// How a menu item was used this frame.
#[derive(Clone, Copy, Debug, PartialEq, Eq, Structural)]
pub struct ItemUse {
    pub enabled: bool,
    pub clicked: bool,
    pub hovered: bool,
}

/// The positions of the enabled items that were clicked, in order.
pub open spec fn clicked_positions(items: Seq<ItemUse>) -> Seq<usize>
    decreases items.len(),
{
    if items.len() == 0 {
        seq![]
    } else {
        let rest = clicked_positions(items.drop_last());
        let last = items.last();
        if last.enabled && last.clicked {
            rest.push((items.len() - 1) as usize)
        } else {
            rest
        }
    }
}

/// The last enabled item that is hovered, if any.
pub open spec fn hovered_position(items: Seq<ItemUse>) -> Option<usize>
    decreases items.len(),
{
    if items.len() == 0 {
        None
    } else if items.last().enabled && items.last().hovered {
        Some((items.len() - 1) as usize)
    } else {
        hovered_position(items.drop_last())
    }
}

/// The menu items the frame's rendering reported: the positions of the
/// enabled clicked items (their actions are dispatched, in order) and the
/// last enabled hovered item.
pub fn menu_item_uses(items: &[ItemUse]) -> (r: (Vec<usize>, Option<usize>))
    ensures
        r.0@ == clicked_positions(items@),
        r.1 == hovered_position(items@),
{
    let mut clicked: Vec<usize> = Vec::new();
    let mut hovered: Option<usize> = None;
    let mut i: usize = 0;
    assert(items@.take(0) =~= Seq::<ItemUse>::empty());
    while i < items.len()
        invariant
            i <= items@.len(),
            clicked@ == clicked_positions(items@.take(i as int)),
            hovered == hovered_position(items@.take(i as int)),
        decreases items.len() - i,
    {
        let it = items[i];
        assert(items@.take(i + 1).drop_last() =~= items@.take(i as int));
        assert(items@.take(i + 1).last() == it);
        if it.enabled && it.clicked {
            clicked.push(i);
        }
        if it.enabled && it.hovered {
            hovered = Some(i);
        }
        i = i + 1;
    }
    assert(items@.take(items@.len() as int) =~= items@);
    (clicked, hovered)
}

/// The menu music track, played while the start menu is shown.
pub const MENU_MUSIC_PATH: &'static str = "audio/music/menu.ogg";

/// What to do with the menu music.
#[derive(Clone, Copy, Debug, PartialEq, Eq, Structural)]
pub enum MusicCommand {
    /// Start the menu track, looped.
    Start,
    /// Stop it.
    Stop,
}

/// The kinds of menu actions, as far as sounds and music tell them apart.
pub enum ActionKind {
    NoAction,
    LoadScene,
    NewWorld,
    GenerateWorld,
    Exit,
    ShowStart,
    ShowOther,
    Close,
    SettingsSaved,
}

/// The kind of a menu action.
pub open spec fn action_kind(a: MenuAction) -> ActionKind {
    match a {
        MenuAction::NoAction => ActionKind::NoAction,
        MenuAction::LoadScene(_) => ActionKind::LoadScene,
        MenuAction::NewWorld => ActionKind::NewWorld,
        MenuAction::GenerateWorld(_) => ActionKind::GenerateWorld,
        MenuAction::Exit => ActionKind::Exit,
        MenuAction::ShowMenu(name) => if name@ == "start"@ {
            ActionKind::ShowStart
        } else {
            ActionKind::ShowOther
        },
        MenuAction::Close => ActionKind::Close,
        MenuAction::SettingsSaved(_) => ActionKind::SettingsSaved,
    }
}

/// The sound a menu action makes: confirming sounds for loading, new
/// worlds and saved settings, a click for quitting, a navigation sound for
/// showing a menu, a cancel sound for closing, none for no action.
pub open spec fn sound_of(k: ActionKind) -> Option<UiAudioEvent> {
    match k {
        ActionKind::NoAction => None,
        ActionKind::LoadScene => Some(UiAudioEvent::Confirm),
        ActionKind::NewWorld => Some(UiAudioEvent::Confirm),
        ActionKind::GenerateWorld => Some(UiAudioEvent::Confirm),
        ActionKind::Exit => Some(UiAudioEvent::ButtonClick),
        ActionKind::ShowStart => Some(UiAudioEvent::MenuNavigate),
        ActionKind::ShowOther => Some(UiAudioEvent::MenuNavigate),
        ActionKind::Close => Some(UiAudioEvent::Cancel),
        ActionKind::SettingsSaved => Some(UiAudioEvent::Confirm),
    }
}

/// The sound a menu action makes.
pub fn action_sound(action: &MenuAction) -> (s: Option<UiAudioEvent>)
    ensures
        s == sound_of(action_kind(*action)),
{
    match action {
        MenuAction::NoAction => None,
        MenuAction::LoadScene(_) => Some(UiAudioEvent::Confirm),
        MenuAction::NewWorld => Some(UiAudioEvent::Confirm),
        MenuAction::GenerateWorld(_) => Some(UiAudioEvent::Confirm),
        MenuAction::Exit => Some(UiAudioEvent::ButtonClick),
        MenuAction::ShowMenu(_) => Some(UiAudioEvent::MenuNavigate),
        MenuAction::Close => Some(UiAudioEvent::Cancel),
        MenuAction::SettingsSaved(_) => Some(UiAudioEvent::Confirm),
    }
}

/// One action's effect on the menu music: showing the start menu starts the
/// music when it is not playing and the track exists; loading a scene,
/// generating a world, quitting, or showing another menu stops it when it is
/// playing.  Returns whether music plays afterwards and the command to send.
pub open spec fn music_step(k: ActionKind, playing: bool, track_exists: bool) -> (
    bool,
    Option<MusicCommand>,
) {
    match k {
        ActionKind::ShowStart => if !playing && track_exists {
            (true, Some(MusicCommand::Start))
        } else {
            (playing, None)
        },
        ActionKind::LoadScene | ActionKind::GenerateWorld | ActionKind::Exit
        | ActionKind::ShowOther => if playing {
            (false, Some(MusicCommand::Stop))
        } else {
            (playing, None)
        },
        _ => (playing, None),
    }
}

/// The effect of a list of actions on the menu music, one after another:
/// whether music plays at the end, and the commands in order.
pub open spec fn music_steps(actions: Seq<MenuAction>, playing: bool, track_exists: bool) -> (
    bool,
    Seq<MusicCommand>,
)
    decreases actions.len(),
{
    if actions.len() == 0 {
        (playing, seq![])
    } else {
        let (p, cmds) = music_steps(actions.drop_last(), playing, track_exists);
        let (p2, c) = music_step(action_kind(actions.last()), p, track_exists);
        (
            p2,
            match c {
                Some(cmd) => cmds.push(cmd),
                None => cmds,
            },
        )
    }
}

/// Leaving the start menu stops the menu music: after any earlier actions,
/// loading a scene, generating a world, quitting, or showing a menu other
/// than `start` leaves no music playing, and sends Stop exactly when music
/// was playing.  Showing `start` starts the music when none plays and the
/// track exists, and otherwise sends nothing.  Other actions leave the music
/// as it is.
pub proof fn lemma_menu_music_follows_start_menu(
    actions: Seq<MenuAction>,
    a: MenuAction,
    playing: bool,
    track_exists: bool,
)
    ensures
        ({
            let (p0, c0) = music_steps(actions, playing, track_exists);
            let (p1, c1) = music_steps(actions.push(a), playing, track_exists);
            &&& (a is LoadScene || a is GenerateWorld || a is Exit || (a matches MenuAction::ShowMenu(
                n,
            ) && n@ != "start"@)) ==> !p1 && c1 == (if p0 {
                c0.push(MusicCommand::Stop)
            } else {
                c0
            })
            &&& (a is NoAction || a is NewWorld || a is Close || a is SettingsSaved) ==> p1 == p0
                && c1 == c0
            &&& (a matches MenuAction::ShowMenu(n) && n@ == "start"@) ==> (if !p0 && track_exists {
                p1 && c1 == c0.push(MusicCommand::Start)
            } else {
                p1 == p0 && c1 == c0
            })
        }),
{
    assert(actions.push(a).drop_last() =~= actions);
    assert(actions.push(a).last() == a);
}

/// Whether a menu action shows the start menu.
fn shows_start(action: &MenuAction) -> (b: bool)
    ensures
        b == (action_kind(*action) == ActionKind::ShowStart),
{
    match action {
        MenuAction::ShowMenu(name) => {
            let start = string_from_str("start");
            *name == start
        },
        _ => false,
    }
}

/// One action's effect on the menu music (see `music_step`).
fn step(action: &MenuAction, playing: bool, track_exists: bool) -> (r: (bool, Option<MusicCommand>))
    ensures
        r == music_step(action_kind(*action), playing, track_exists),
{
    if shows_start(action) {
        return if !playing && track_exists {
            (true, Some(MusicCommand::Start))
        } else {
            (playing, None)
        };
    }
    match action {
        MenuAction::LoadScene(_) | MenuAction::GenerateWorld(_) | MenuAction::Exit
        | MenuAction::ShowMenu(_) => if playing {
            (false, Some(MusicCommand::Stop))
        } else {
            (playing, None)
        },
        _ => (playing, None),
    }
}

/// Updates the menu-music state for this frame's menu actions (see
/// `music_steps`); `track_exists` tells whether `MENU_MUSIC_PATH` exists.
/// Returns the music commands to send, in order.
pub fn update_menu_music(actions: &[MenuAction], music_playing: &mut bool, track_exists: bool) -> (cmds: Vec<MusicCommand>)
    ensures
        (*final(music_playing), cmds@) == music_steps(actions@, *old(music_playing), track_exists),
{
    let mut cmds: Vec<MusicCommand> = Vec::new();
    let mut i: usize = 0;
    assert(actions@.take(0) =~= Seq::<MenuAction>::empty());
    while i < actions.len()
        invariant
            i <= actions@.len(),
            (*music_playing, cmds@) == music_steps(actions@.take(i as int), *old(music_playing), track_exists),
        decreases actions.len() - i,
    {
        let (p, c) = step(&actions[i], *music_playing, track_exists);
        assert(actions@.take(i + 1).drop_last() =~= actions@.take(i as int));
        assert(actions@.take(i + 1).last() == actions@[i as int]);
        *music_playing = p;
        match c {
            Some(cmd) => cmds.push(cmd),
            None => {},
        }
        i = i + 1;
    }
    assert(actions@.take(actions@.len() as int) =~= actions@);
    cmds
}


// ---------------------------------------------------------------------------
// Decisions of a frame
// ---------------------------------------------------------------------------

/// Whether a frame is drawn at all: while the menus are visible, and in every
/// state but the menus (for the overlays).
pub fn needs_render(menus_visible: bool, state: GameState) -> (b: bool)
    ensures
        b == (menus_visible || state != GameState::Menu),
{
    menus_visible || state != GameState::Menu
}

/// Whether the hover moved to a new item this frame, which plays the
/// navigation sound once: an item is hovered and it is not the one hovered
/// last frame.
pub fn hover_plays_sound(last_hovered: &Option<String>, new_hovered: &Option<String>) -> (b: bool)
    ensures
        b == (new_hovered matches Some(n) && !(last_hovered matches Some(l) && l@ == n@)),
{
    match new_hovered {
        None => false,
        Some(n) => match last_hovered {
            None => true,
            Some(l) => !(*l == *n),
        },
    }
}

/// Whether any of the frame's menu actions closes the menus.
pub fn closes_menus(actions: &[MenuAction]) -> (b: bool)
    ensures
        b == exists|i: int| 0 <= i < actions@.len() && action_kind(#[trigger] actions@[i]) == ActionKind::Close,
{
    let mut i: usize = 0;
    while i < actions.len()
        invariant
            i <= actions@.len(),
            forall|j: int| 0 <= j < i ==> action_kind(#[trigger] actions@[j]) != ActionKind::Close,
        decreases actions.len() - i,
    {
        if let MenuAction::Close = &actions[i] {
            assert(action_kind(actions@[i as int]) == ActionKind::Close);
            return true;
        }
        i = i + 1;
    }
    false
}

// ---------------------------------------------------------------------------
// Progress overlay
// ---------------------------------------------------------------------------

/// The progress overlay of a long task: its title, whether it offers a
/// Cancel button, and whether the user pressed it.  The fraction done, a
/// float, is kept beside it by the caller.
pub struct ProgressState {
    pub title: String,
    pub cancellable: bool,
    pub canceled: bool,
}

/// Starts showing a progress overlay with the given title, replacing any
/// earlier one, and makes the UI visible.
pub fn start_progress(
    progress: &mut Option<ProgressState>,
    screens: &mut UiScreens,
    title: String,
    cancellable: bool,
)
    ensures
        *final(progress) matches Some(p) && p.title@ == title@ && p.cancellable == cancellable
            && !p.canceled,
        final(screens)@ == (ScreensView { visible: true, ..old(screens)@ }),
{
    *progress = Some(ProgressState { title, cancellable, canceled: false });
    screens.set_visible(true);
}

/// The overlay's Cancel button was pressed: the request is recorded when the
/// overlay offers the button.
pub fn press_cancel(p: &mut ProgressState)
    ensures
        final(p).title@ == old(p).title@,
        final(p).cancellable == old(p).cancellable,
        final(p).canceled == (old(p).canceled || old(p).cancellable),
{
    if p.cancellable {
        p.canceled = true;
    }
}

/// Ends the progress overlay.
pub fn finish_progress(progress: &mut Option<ProgressState>)
    ensures
        *final(progress) is None,
{
    *progress = None;
}

/// Whether the user asked to cancel since the last call: true once per
/// request, after which the request is cleared.  False when no overlay is
/// shown.
pub fn take_progress_canceled(progress: &mut Option<ProgressState>) -> (was: bool)
    ensures
        was == (*old(progress) matches Some(p) && p.canceled),
        *old(progress) is None ==> *final(progress) is None,
        *old(progress) matches Some(p) ==> (*final(progress) matches Some(q) && q.title@ == p.title@
            && q.cancellable == p.cancellable && !q.canceled),
{
    match progress {
        Some(p) => {
            let was = p.canceled;
            p.canceled = false;
            was
        },
        None => false,
    }
}

} // verus!
