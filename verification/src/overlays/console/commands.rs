//! Console commands: splitting a command line into words, recognising the
//! command, checking its arguments, and the messages and action it yields.

use crate::text;
use crate::text::{chars_eq, lower_chars, parse_u32_chars, push_str, push_vec,
    split_whitespace_chars, str_chars, string_from_chars, string_from_str, u32_decimal_chars};
use vstd::prelude::*;

verus! {

/// What a console command asks the application to do.
///
/// The sun and time commands carry their numeric arguments as the words the
/// user typed: reading them as decimal fractions is done where the action
/// is carried out.
#[derive(Debug, PartialEq)]
pub enum ConsoleAction {
    /// Quit the application.
    Quit,
    /// Toggle god mode.
    ToggleGodMode,
    /// Toggle noclip mode.
    ToggleNoclip,
    /// Close the console.
    Close,
    /// Set the sun direction from the yaw and pitch words (degrees).
    SetSunDirection(String, String),
    /// Set the time of day from the hour word (0-24).
    SetTimeOfDay(String),
    /// Set the debug view mode (0 = None, 1 = Normals, 2 = Bias, 3 = Shadows,
    /// 4 = Light Level, 5 = Point Lights).
    SetDebugView(u32),
    /// Set the shadow quality (0 = Off .. 4 = Ultra).
    SetShadowQuality(u32),
    /// Set the SSAO quality (0 = Off .. 4 = Ultra).
    SetSsaoQuality(u32),
    /// Spawn an entity of a type, with optional further arguments.
    Spawn(String, Option<String>),
    /// Nothing to do.
    NoAction,
}

/// A console action with its texts as character sequences.
pub enum ActionView {
    Quit,
    ToggleGodMode,
    ToggleNoclip,
    Close,
    SetSunDirection(Seq<char>, Seq<char>),
    SetTimeOfDay(Seq<char>),
    SetDebugView(u32),
    SetShadowQuality(u32),
    SetSsaoQuality(u32),
    Spawn(Seq<char>, Option<Seq<char>>),
    NoAction,
}

impl View for ConsoleAction {
    type V = ActionView;

    open spec fn view(&self) -> ActionView {
        match self {
            ConsoleAction::Quit => ActionView::Quit,
            ConsoleAction::ToggleGodMode => ActionView::ToggleGodMode,
            ConsoleAction::ToggleNoclip => ActionView::ToggleNoclip,
            ConsoleAction::Close => ActionView::Close,
            ConsoleAction::SetSunDirection(y, p) => ActionView::SetSunDirection(y@, p@),
            ConsoleAction::SetTimeOfDay(t) => ActionView::SetTimeOfDay(t@),
            ConsoleAction::SetDebugView(m) => ActionView::SetDebugView(*m),
            ConsoleAction::SetShadowQuality(q) => ActionView::SetShadowQuality(*q),
            ConsoleAction::SetSsaoQuality(q) => ActionView::SetSsaoQuality(*q),
            ConsoleAction::Spawn(t, a) => ActionView::Spawn(
                t@,
                match a {
                    Some(s) => Some(s@),
                    None => None,
                },
            ),
            ConsoleAction::NoAction => ActionView::NoAction,
        }
    }
}

/// The texts of a list of strings.
pub open spec fn texts(v: Seq<String>) -> Seq<Seq<char>> {
    Seq::new(v.len(), |i: int| v[i]@)
}

/// The messages and action of a command.
pub type Outcome = (Seq<Seq<char>>, ActionView);

/// The outcome of executing a command: the messages to print and the action.
pub struct CommandResult {
    /// Messages to print in the console.
    pub messages: Vec<String>,
    /// The action for the application.
    pub action: ConsoleAction,
}

impl CommandResult {
    /// The messages and action as texts.
    pub open spec fn outcome(&self) -> Outcome {
        (texts(self.messages@), self.action@)
    }

    /// A result with these messages and this action.
    pub fn new(messages: Vec<String>, action: ConsoleAction) -> (r: Self)
        ensures
            r.messages@ == messages@,
            r.action == action,
    {
        Self { messages, action }
    }

    /// A result with one message and no action.
    pub fn message(msg: String) -> (r: Self)
        ensures
            r.outcome() == (seq![msg@], ActionView::NoAction),
    {
        let mut messages: Vec<String> = Vec::new();
        messages.push(msg);
        let r = Self { messages, action: ConsoleAction::NoAction };
        assert(texts(r.messages@) =~= seq![msg@]);
        r
    }

    /// A result with these messages and no action.
    pub fn messages(messages: Vec<String>) -> (r: Self)
        ensures
            r.messages@ == messages@,
            r.action == ConsoleAction::NoAction,
    {
        Self { messages, action: ConsoleAction::NoAction }
    }

    /// A result with no message and this action.
    pub fn action(action: ConsoleAction) -> (r: Self)
        ensures
            r.messages@ == Seq::<String>::empty(),
            r.action == action,
    {
        Self { messages: Vec::new(), action }
    }

    /// A result with one message and this action.
    pub fn with_action(msg: String, action: ConsoleAction) -> (r: Self)
        ensures
            texts(r.messages@) == seq![msg@],
            r.action == action,
    {
        let mut messages: Vec<String> = Vec::new();
        messages.push(msg);
        let r = Self { messages, action };
        assert(texts(r.messages@) =~= seq![msg@]);
        r
    }
}

/// The word names the command `name` (a lower-case name): they are equal
/// when the word is lower-cased.
pub open spec fn names(word: Seq<char>, name: Seq<char>) -> bool {
    text::ascii_lower_seq(word) == name
}

/// The lines of the help text.
pub open spec fn help_lines() -> Seq<Seq<char>> {
    seq![
        "Available commands:"@,
        "  help - Show this help message"@,
        "  clear - Clear the console output"@,
        "  quit - Exit the application"@,
        "  god - Toggle god mode (invincibility)"@,
        "  noclip - Toggle noclip mode (fly through walls)"@,
        "  sun <yaw> <pitch> - Set sun direction (degrees)"@,
        "  time <0-24> - Set time of day (0=midnight, 6=dawn, 12=noon, 18=dusk)"@,
        "  r_debug_view <mode> - Set debug view mode"@,
        "  r_shadow_quality <0-4> - Set shadow quality (Off/Low/Med/High/Ultra)"@,
        "  r_ssao_quality <0-4> - Set SSAO quality (Off/Low/Med/High/Ultra)"@,
    ]
}

/// The name of a debug view mode.
pub open spec fn debug_view_name(mode: u32) -> Seq<char> {
    if mode == 0 {
        "None"@
    } else if mode == 1 {
        "Normals"@
    } else if mode == 2 {
        "Bias"@
    } else if mode == 3 {
        "Shadows"@
    } else if mode == 4 {
        "Light Level"@
    } else if mode == 5 {
        "Point Lights"@
    } else {
        "Unknown"@
    }
}

/// The name of a quality level 0-4.
pub open spec fn quality_name(q: u32) -> Seq<char> {
    if q == 0 {
        "Off"@
    } else if q == 1 {
        "Low"@
    } else if q == 2 {
        "Medium"@
    } else if q == 3 {
        "High"@
    } else if q == 4 {
        "Ultra"@
    } else {
        "Unknown"@
    }
}

/// The words joined with single spaces.
pub open spec fn join_words(ws: Seq<Seq<char>>) -> Seq<char>
    decreases ws.len(),
{
    if ws.len() == 0 {
        Seq::<char>::empty()
    } else if ws.len() == 1 {
        ws[0]
    } else {
        ws[0] + seq![' '] + join_words(ws.drop_first())
    }
}

/// The `sun <yaw> <pitch>` command.
pub open spec fn sun_outcome(ws: Seq<Seq<char>>) -> Outcome {
    if ws.len() != 3 {
        (seq!["Usage: sun <yaw> <pitch>"@, "  Example: sun 45 60"@], ActionView::NoAction)
    } else {
        (seq![], ActionView::SetSunDirection(ws[1], ws[2]))
    }
}

/// The `time <0-24>` command.
pub open spec fn time_outcome(ws: Seq<Seq<char>>) -> Outcome {
    if ws.len() != 2 {
        (
            seq![
                "Usage: time <0-24>"@,
                "  0 = midnight, 6 = dawn, 12 = noon, 18 = dusk, 24 = midnight"@,
            ],
            ActionView::NoAction,
        )
    } else {
        (seq![], ActionView::SetTimeOfDay(ws[1]))
    }
}

/// The `r_debug_view <mode>` command.
pub open spec fn debug_view_outcome(ws: Seq<Seq<char>>) -> Outcome {
    if ws.len() < 2 {
        (
            seq![
                "Usage: r_debug_view <mode> (0=None, 1=Normals, 2=Bias, 3=Shadows, 4=LightLevel, 5=PointLights)"@,
            ],
            ActionView::NoAction,
        )
    } else {
        match text::decimal_u32(ws[1]) {
            Some(mode) => (
                seq![
                    "Debug view set to: "@ + debug_view_name(mode) + " ("@ + text::decimal_text(
                        mode as nat,
                    ) + ")"@,
                ],
                ActionView::SetDebugView(mode),
            ),
            None => (seq!["Invalid mode. Must be a number."@], ActionView::NoAction),
        }
    }
}

/// The quality commands: `label` names the setting in the messages, and
/// `shadows` tells the shadow command from the SSAO one.
pub open spec fn quality_outcome(ws: Seq<Seq<char>>, shadows: bool) -> Outcome {
    if ws.len() < 2 {
        (
            seq![
                if shadows {
                    "Usage: r_shadow_quality <0-4> (0=Off, 1=Low, 2=Med, 3=High, 4=Ultra)"@
                } else {
                    "Usage: r_ssao_quality <0-4> (0=Off, 1=Low, 2=Med, 3=High, 4=Ultra)"@
                },
            ],
            ActionView::NoAction,
        )
    } else {
        match text::decimal_u32(ws[1]) {
            Some(q) => if q > 4 {
                (seq!["Quality must be between 0 and 4"@], ActionView::NoAction)
            } else {
                (
                    seq![
                        (if shadows {
                            "Shadow quality set to: "@
                        } else {
                            "SSAO quality set to: "@
                        }) + quality_name(q) + " ("@ + text::decimal_text(q as nat) + ")"@,
                    ],
                    if shadows {
                        ActionView::SetShadowQuality(q)
                    } else {
                        ActionView::SetSsaoQuality(q)
                    },
                )
            },
            None => (seq!["Invalid quality. Must be a number."@], ActionView::NoAction),
        }
    }
}

/// The `spawn <type> [args...]` command.
pub open spec fn spawn_outcome(ws: Seq<Seq<char>>) -> Outcome {
    if ws.len() < 2 {
        (seq!["Usage: spawn <type> [material/args]"@], ActionView::NoAction)
    } else {
        (
            seq!["Spawning "@ + ws[1] + "..."@],
            ActionView::Spawn(
                ws[1],
                if ws.len() > 2 {
                    Some(join_words(ws.skip(2)))
                } else {
                    None
                },
            ),
        )
    }
}

/// A command word that names no command.
pub open spec fn unknown_outcome(word: Seq<char>) -> Outcome {
    (
        seq!["Unknown command: '"@ + word + "'"@, "Type 'help' for available commands"@],
        ActionView::NoAction,
    )
}

/// What a command line yields, given its whitespace-separated words: the
/// first word names the command (in any letter case) and the others are its
/// arguments.
pub open spec fn command_outcome(ws: Seq<Seq<char>>) -> Outcome {
    if ws.len() == 0 {
        (seq![], ActionView::NoAction)
    } else {
        let w = ws[0];
        if names(w, seq!['h', 'e', 'l', 'p']) {
            (help_lines(), ActionView::NoAction)
        } else if names(w, seq!['c', 'l', 'e', 'a', 'r']) {
            (seq![], ActionView::NoAction)
        } else if names(w, seq!['q', 'u', 'i', 't']) {
            (seq!["Exiting application..."@], ActionView::Quit)
        } else if names(w, seq!['g', 'o', 'd']) {
            (seq!["Toggling god mode..."@], ActionView::ToggleGodMode)
        } else if names(w, seq!['n', 'o', 'c', 'l', 'i', 'p']) {
            (seq!["Toggling noclip mode..."@], ActionView::ToggleNoclip)
        } else if names(w, seq!['s', 'u', 'n']) {
            sun_outcome(ws)
        } else if names(w, seq!['t', 'i', 'm', 'e']) {
            time_outcome(ws)
        } else if names(
            w,
            seq!['r', '_', 'd', 'e', 'b', 'u', 'g', '_', 'v', 'i', 'e', 'w'],
        ) {
            debug_view_outcome(ws)
        } else if names(
            w,
            seq!['r', '_', 's', 'h', 'a', 'd', 'o', 'w', '_', 'q', 'u', 'a', 'l', 'i', 't', 'y'],
        ) {
            quality_outcome(ws, true)
        } else if names(
            w,
            seq!['r', '_', 's', 's', 'a', 'o', '_', 'q', 'u', 'a', 'l', 'i', 't', 'y'],
        ) {
            quality_outcome(ws, false)
        } else if names(w, seq!['s', 'p', 'a', 'w', 'n']) {
            spawn_outcome(ws)
        } else {
            unknown_outcome(w)
        }
    }
}

/// `r_shadow_quality`, the shadow-quality command word.
pub open spec fn shadow_quality_word() -> Seq<char> {
    seq!['r', '_', 's', 'h', 'a', 'd', 'o', 'w', '_', 'q', 'u', 'a', 'l', 'i', 't', 'y']
}

/// `r_ssao_quality`, the SSAO-quality command word.
pub open spec fn ssao_quality_word() -> Seq<char> {
    seq!['r', '_', 's', 's', 'a', 'o', '_', 'q', 'u', 'a', 'l', 'i', 't', 'y']
}

/// The quality commands take every level from Off (0) to Ultra (4) and
/// reject only higher numbers: the line `r_shadow_quality q` (or
/// `r_ssao_quality q`) with `q` written in decimal sets that quality to `q`
/// exactly when `q <= 4`, and asks for nothing otherwise.
pub proof fn lemma_quality_commands_take_off_to_ultra(q: u32)
    ensures
        command_outcome(
            text::words(shadow_quality_word() + seq![' '] + text::decimal_text(q as nat)),
        ).1 == (if q <= 4 {
            ActionView::SetShadowQuality(q)
        } else {
            ActionView::NoAction
        }),
        command_outcome(
            text::words(ssao_quality_word() + seq![' '] + text::decimal_text(q as nat)),
        ).1 == (if q <= 4 {
            ActionView::SetSsaoQuality(q)
        } else {
            ActionView::NoAction
        }),
{
    let d = text::decimal_text(q as nat);
    text::lemma_decimal_text_reads_back(q as nat);
    assert forall|i: int| 0 <= i < d.len() implies !text::is_whitespace(#[trigger] d[i]) by {
        assert(text::is_digit(d[i]));
    }
    let sw = shadow_quality_word();
    let aw = ssao_quality_word();
    assert forall|i: int| 0 <= i < sw.len() implies !text::is_whitespace(#[trigger] sw[i]) by {}
    assert forall|i: int| 0 <= i < aw.len() implies !text::is_whitespace(#[trigger] aw[i]) by {}
    text::lemma_two_words(sw, d);
    text::lemma_two_words(aw, d);
    assert(text::ascii_lower_seq(sw) =~= sw);
    assert(text::ascii_lower_seq(aw) =~= aw);
}

/// The names of the quality levels, Off (0) to Ultra (4), in order.
pub open spec fn quality_level_names() -> Seq<Seq<char>> {
    seq!["Off"@, "Low"@, "Medium"@, "High"@, "Ultra"@]
}

/// Setting a quality level in range reports the level by its name and
/// number: `Shadow quality set to: Ultra (4)`; a number above Ultra is
/// refused with `Quality must be between 0 and 4`.
pub proof fn lemma_quality_commands_report_level(q: u32)
    ensures
        q <= 4 ==> command_outcome(
            text::words(shadow_quality_word() + seq![' '] + text::decimal_text(q as nat)),
        ).0 == seq![
            "Shadow quality set to: "@ + quality_level_names()[q as int] + " ("@
                + text::decimal_text(q as nat) + ")"@,
        ],
        q <= 4 ==> command_outcome(
            text::words(ssao_quality_word() + seq![' '] + text::decimal_text(q as nat)),
        ).0 == seq![
            "SSAO quality set to: "@ + quality_level_names()[q as int] + " ("@
                + text::decimal_text(q as nat) + ")"@,
        ],
        q > 4 ==> command_outcome(
            text::words(shadow_quality_word() + seq![' '] + text::decimal_text(q as nat)),
        ).0 == seq!["Quality must be between 0 and 4"@],
        q > 4 ==> command_outcome(
            text::words(ssao_quality_word() + seq![' '] + text::decimal_text(q as nat)),
        ).0 == seq!["Quality must be between 0 and 4"@],
{
    lemma_quality_commands_take_off_to_ultra(q);
    let d = text::decimal_text(q as nat);
    text::lemma_decimal_text_reads_back(q as nat);
    assert forall|i: int| 0 <= i < d.len() implies !text::is_whitespace(#[trigger] d[i]) by {
        assert(text::is_digit(d[i]));
    }
    let sw = shadow_quality_word();
    let aw = ssao_quality_word();
    assert forall|i: int| 0 <= i < sw.len() implies !text::is_whitespace(#[trigger] sw[i]) by {}
    assert forall|i: int| 0 <= i < aw.len() implies !text::is_whitespace(#[trigger] aw[i]) by {}
    text::lemma_two_words(sw, d);
    text::lemma_two_words(aw, d);
    assert(text::ascii_lower_seq(sw) =~= sw);
    assert(text::ascii_lower_seq(aw) =~= aw);
}

/// A string from a literal.
fn owned(s: &str) -> (out: String)
    ensures
        out@ == s@,
{
    string_from_str(s)
}

/// The texts of a vector of character vectors.
pub open spec fn word_texts(v: Seq<Vec<char>>) -> Seq<Seq<char>> {
    text::char_lists(v)
}

/// Parses and executes console commands.
pub struct CommandProcessor;

impl CommandProcessor {
    /// A command processor.
    pub fn new() -> (p: Self) {
        CommandProcessor
    }

    /// Executes a command line: the messages to print and the action.
    pub fn execute(&self, command: &str) -> (r: CommandResult)
        ensures
            r.outcome() == command_outcome(text::words(command@)),
    {
        let chars = str_chars(command);
        let parts = split_whitespace_chars(&chars);
        let ghost ws = text::char_lists(parts@);
        if parts.len() == 0 {
            let r = CommandResult::action(ConsoleAction::NoAction);
            assert(texts(r.messages@) =~= seq![]);
            return r;
        }
        let w = lower_chars(&parts[0]);
        assert(ws[0] == parts@[0]@);
        if chars_eq(&w, &['h', 'e', 'l', 'p']) {
            Self::help_command()
        } else if chars_eq(&w, &['c', 'l', 'e', 'a', 'r']) {
            let r = CommandResult::action(ConsoleAction::NoAction);
            assert(texts(r.messages@) =~= seq![]);
            r
        } else if chars_eq(&w, &['q', 'u', 'i', 't']) {
            CommandResult::with_action(owned("Exiting application..."), ConsoleAction::Quit)
        } else if chars_eq(&w, &['g', 'o', 'd']) {
            CommandResult::with_action(owned("Toggling god mode..."), ConsoleAction::ToggleGodMode)
        } else if chars_eq(&w, &['n', 'o', 'c', 'l', 'i', 'p']) {
            CommandResult::with_action(
                owned("Toggling noclip mode..."),
                ConsoleAction::ToggleNoclip,
            )
        } else if chars_eq(&w, &['s', 'u', 'n']) {
            Self::sun_command(&parts)
        } else if chars_eq(&w, &['t', 'i', 'm', 'e']) {
            Self::time_command(&parts)
        } else if chars_eq(&w, &['r', '_', 'd', 'e', 'b', 'u', 'g', '_', 'v', 'i', 'e', 'w']) {
            Self::debug_view_command(&parts)
        } else if chars_eq(
            &w,
            &['r', '_', 's', 'h', 'a', 'd', 'o', 'w', '_', 'q', 'u', 'a', 'l', 'i', 't', 'y'],
        ) {
            Self::quality_command(&parts, true)
        } else if chars_eq(
            &w,
            &['r', '_', 's', 's', 'a', 'o', '_', 'q', 'u', 'a', 'l', 'i', 't', 'y'],
        ) {
            Self::quality_command(&parts, false)
        } else if chars_eq(&w, &['s', 'p', 'a', 'w', 'n']) {
            Self::spawn_command(&parts)
        } else {
            Self::unknown_command(&parts[0])
        }
    }

    /// The help text.
    fn help_command() -> (r: CommandResult)
        ensures
            r.outcome() == (help_lines(), ActionView::NoAction),
    {
        let mut m: Vec<String> = Vec::new();
        m.push(owned("Available commands:"));
        m.push(owned("  help - Show this help message"));
        m.push(owned("  clear - Clear the console output"));
        m.push(owned("  quit - Exit the application"));
        m.push(owned("  god - Toggle god mode (invincibility)"));
        m.push(owned("  noclip - Toggle noclip mode (fly through walls)"));
        m.push(owned("  sun <yaw> <pitch> - Set sun direction (degrees)"));
        m.push(owned("  time <0-24> - Set time of day (0=midnight, 6=dawn, 12=noon, 18=dusk)"));
        m.push(owned("  r_debug_view <mode> - Set debug view mode"));
        m.push(owned("  r_shadow_quality <0-4> - Set shadow quality (Off/Low/Med/High/Ultra)"));
        m.push(owned("  r_ssao_quality <0-4> - Set SSAO quality (Off/Low/Med/High/Ultra)"));
        let r = CommandResult::messages(m);
        assert(texts(r.messages@) =~= help_lines());
        r
    }

    /// The sun command: checks the number of arguments.
    fn sun_command(parts: &Vec<Vec<char>>) -> (r: CommandResult)
        ensures
            r.outcome() == sun_outcome(text::char_lists(parts@)),
    {
        if parts.len() != 3 {
            let mut m: Vec<String> = Vec::new();
            m.push(owned("Usage: sun <yaw> <pitch>"));
            m.push(owned("  Example: sun 45 60"));
            let r = CommandResult::messages(m);
            assert(texts(r.messages@) =~= seq!["Usage: sun <yaw> <pitch>"@, "  Example: sun 45 60"@]);
            return r;
        }
        let yaw = string_from_chars(&parts[1]);
        let pitch = string_from_chars(&parts[2]);
        let r = CommandResult::action(ConsoleAction::SetSunDirection(yaw, pitch));
        assert(texts(r.messages@) =~= seq![]);
        r
    }

    /// The time command: checks the number of arguments.
    fn time_command(parts: &Vec<Vec<char>>) -> (r: CommandResult)
        ensures
            r.outcome() == time_outcome(text::char_lists(parts@)),
    {
        if parts.len() != 2 {
            let mut m: Vec<String> = Vec::new();
            m.push(owned("Usage: time <0-24>"));
            m.push(owned("  0 = midnight, 6 = dawn, 12 = noon, 18 = dusk, 24 = midnight"));
            let r = CommandResult::messages(m);
            assert(texts(r.messages@) =~= seq![
                "Usage: time <0-24>"@,
                "  0 = midnight, 6 = dawn, 12 = noon, 18 = dusk, 24 = midnight"@,
            ]);
            return r;
        }
        let hours = string_from_chars(&parts[1]);
        let r = CommandResult::action(ConsoleAction::SetTimeOfDay(hours));
        assert(texts(r.messages@) =~= seq![]);
        r
    }

    /// The name of a debug view mode.
    fn debug_view_label(mode: u32) -> (s: &'static str)
        ensures
            s@ == debug_view_name(mode),
    {
        match mode {
            0 => "None",
            1 => "Normals",
            2 => "Bias",
            3 => "Shadows",
            4 => "Light Level",
            5 => "Point Lights",
            _ => "Unknown",
        }
    }

    /// The name of a quality level.
    fn quality_label(q: u32) -> (s: &'static str)
        ensures
            s@ == quality_name(q),
    {
        match q {
            0 => "Off",
            1 => "Low",
            2 => "Medium",
            3 => "High",
            4 => "Ultra",
            _ => "Unknown",
        }
    }

    /// `<prefix><name> (<number>)`.
    fn labelled_number(prefix: &str, name: &str, n: u32) -> (s: String)
        ensures
            s@ == prefix@ + name@ + " ("@ + text::decimal_text(n as nat) + ")"@,
    {
        let mut s = owned(prefix);
        push_str(&mut s, name);
        push_str(&mut s, " (");
        let digits = u32_decimal_chars(n);
        push_vec(&mut s, &digits);
        push_str(&mut s, ")");
        s
    }

    /// The debug view command.
    fn debug_view_command(parts: &Vec<Vec<char>>) -> (r: CommandResult)
        ensures
            r.outcome() == debug_view_outcome(text::char_lists(parts@)),
    {
        if parts.len() < 2 {
            return CommandResult::message(
                owned(
                    "Usage: r_debug_view <mode> (0=None, 1=Normals, 2=Bias, 3=Shadows, 4=LightLevel, 5=PointLights)",
                ),
            );
        }
        match parse_u32_chars(&parts[1]) {
            Some(mode) => {
                let msg = Self::labelled_number(
                    "Debug view set to: ",
                    Self::debug_view_label(mode),
                    mode,
                );
                CommandResult::with_action(msg, ConsoleAction::SetDebugView(mode))
            },
            None => CommandResult::message(owned("Invalid mode. Must be a number.")),
        }
    }

    /// The shadow (`shadows`) or SSAO quality command.
    fn quality_command(parts: &Vec<Vec<char>>, shadows: bool) -> (r: CommandResult)
        ensures
            r.outcome() == quality_outcome(text::char_lists(parts@), shadows),
    {
        if parts.len() < 2 {
            let usage = if shadows {
                owned("Usage: r_shadow_quality <0-4> (0=Off, 1=Low, 2=Med, 3=High, 4=Ultra)")
            } else {
                owned("Usage: r_ssao_quality <0-4> (0=Off, 1=Low, 2=Med, 3=High, 4=Ultra)")
            };
            return CommandResult::message(usage);
        }
        match parse_u32_chars(&parts[1]) {
            Some(q) => {
                if q > 4 {
                    return CommandResult::message(owned("Quality must be between 0 and 4"));
                }
                let prefix = if shadows {
                    "Shadow quality set to: "
                } else {
                    "SSAO quality set to: "
                };
                let msg = Self::labelled_number(prefix, Self::quality_label(q), q);
                let action = if shadows {
                    ConsoleAction::SetShadowQuality(q)
                } else {
                    ConsoleAction::SetSsaoQuality(q)
                };
                CommandResult::with_action(msg, action)
            },
            None => CommandResult::message(owned("Invalid quality. Must be a number.")),
        }
    }

    /// The words from index `from` on, joined with single spaces.
    fn join_from(parts: &Vec<Vec<char>>, from: usize) -> (s: String)
        requires
            from < parts.len(),
        ensures
            s@ == join_words(text::char_lists(parts@).skip(from as int)),
    {
        let ghost ws = text::char_lists(parts@);
        let mut i: usize = parts.len() - 1;
        let mut acc: Vec<char> = parts[i].clone();
        assert(acc@ == parts@[i as int]@);
        assert(ws.skip(i as int) =~= seq![ws[i as int]]);
        while i > from
            invariant
                from <= i < parts.len(),
                ws == text::char_lists(parts@),
                acc@ == join_words(ws.skip(i as int)),
            decreases i,
        {
            let mut next: Vec<char> = parts[i - 1].clone();
            next.push(' ');
            let mut k: usize = 0;
            let ghost base = next@;
            while k < acc.len()
                invariant
                    k <= acc.len(),
                    next@ == base + acc@.take(k as int),
                decreases acc.len() - k,
            {
                next.push(acc[k]);
                k = k + 1;
                assert(base + acc@.take(k as int) =~= base + acc@.take(k - 1) + seq![acc@[k - 1]]);
            }
            assert(acc@.take(acc.len() as int) =~= acc@);
            assert(ws.skip(i - 1).drop_first() =~= ws.skip(i as int));
            assert(ws.skip(i - 1)[0] == parts@[i - 1]@);
            i = i - 1;
            acc = next;
        }
        string_from_chars(&acc)
    }

    /// The spawn command.
    fn spawn_command(parts: &Vec<Vec<char>>) -> (r: CommandResult)
        ensures
            r.outcome() == spawn_outcome(text::char_lists(parts@)),
    {
        if parts.len() < 2 {
            return CommandResult::message(owned("Usage: spawn <type> [material/args]"));
        }
        let entity_type = string_from_chars(&parts[1]);
        let args = if parts.len() > 2 {
            Some(Self::join_from(parts, 2))
        } else {
            None
        };
        let mut msg = owned("Spawning ");
        push_str(&mut msg, entity_type.as_str());
        push_str(&mut msg, "...");
        CommandResult::with_action(msg, ConsoleAction::Spawn(entity_type, args))
    }

    /// A word that names no command.
    fn unknown_command(word: &Vec<char>) -> (r: CommandResult)
        ensures
            r.outcome() == unknown_outcome(word@),
    {
        let mut first = owned("Unknown command: '");
        push_vec(&mut first, word);
        push_str(&mut first, "'");
        let ghost line = first@;
        let mut m: Vec<String> = Vec::new();
        m.push(first);
        m.push(owned("Type 'help' for available commands"));
        let r = CommandResult::messages(m);
        assert(texts(r.messages@)[0] == line);
        assert(texts(r.messages@) =~= unknown_outcome(word@).0);
        r
    }
}

impl Default for CommandProcessor {
    fn default() -> (p: Self) {
        CommandProcessor
    }
}

} // verus!
