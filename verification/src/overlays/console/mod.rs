//! The debug console: command input, output lines and command history.
//!
//! Whether the console is shown is decided elsewhere; this is its state
//! while it is open: the input line, the output and history, and the two
//! flags that drive focus and the close key.

pub mod commands;
pub mod output;

use crate::text;
use crate::text::{chars_eq, lower_chars, push_str, str_chars, string_from_chars, string_from_str,
    trim_chars};
use commands::CommandProcessor;
pub use commands::{ActionView, CommandResult, ConsoleAction};
use output::{ConsoleOutput, ConsoleOutputView};
use vstd::prelude::*;

verus! {

/// What the console holds.
pub struct ConsoleView {
    /// The text being typed.
    pub input: Seq<char>,
    /// Output lines and command history.
    pub output: ConsoleOutputView,
    /// The input field should take the keyboard focus.
    pub focus_input: bool,
    /// The console was opened this frame (the close key is ignored then).
    pub just_opened: bool,
}

/// Appends lines one after another, each bounded like `add_line`.
pub open spec fn push_lines(lines: Seq<Seq<char>>, msgs: Seq<Seq<char>>) -> Seq<Seq<char>>
    decreases msgs.len(),
{
    if msgs.len() == 0 {
        lines
    } else {
        push_lines(
            output::push_bounded(lines, msgs[0], output::MAX_OUTPUT_LINES as nat),
            msgs.drop_first(),
        )
    }
}

/// Submitting the input line.  Blank input (after trimming) changes nothing.
/// Otherwise the trimmed command is echoed as `> <command>` and added to the
/// history; `clear` (in any letter case) then empties the output, and any
/// other command prints its messages.  The input is cleared and the
/// command's action returned.
pub open spec fn after_submit(c: ConsoleView) -> (ConsoleView, ActionView) {
    let cmd = text::trim(c.input);
    if cmd.len() == 0 {
        (c, ActionView::NoAction)
    } else {
        let echoed = output::push_bounded(
            c.output.lines,
            "> "@ + cmd,
            output::MAX_OUTPUT_LINES as nat,
        );
        let history = output::push_bounded(c.output.history, cmd, output::MAX_HISTORY as nat);
        if commands::names(cmd, seq!['c', 'l', 'e', 'a', 'r']) {
            (
                ConsoleView {
                    input: Seq::<char>::empty(),
                    output: ConsoleOutputView {
                        lines: Seq::<Seq<char>>::empty(),
                        history,
                        history_index: None,
                    },
                    ..c
                },
                ActionView::NoAction,
            )
        } else {
            let (msgs, action) = commands::command_outcome(text::words(cmd));
            (
                ConsoleView {
                    input: Seq::<char>::empty(),
                    output: ConsoleOutputView {
                        lines: push_lines(echoed, msgs),
                        history,
                        history_index: None,
                    },
                    ..c
                },
                action,
            )
        }
    }
}

/// The debug console.
pub struct Console {
    input_buffer: String,
    commands: CommandProcessor,
    output: ConsoleOutput,
    focus_input: bool,
    just_opened: bool,
}

impl View for Console {
    type V = ConsoleView;

    closed spec fn view(&self) -> ConsoleView {
        ConsoleView {
            input: self.input_buffer@,
            output: self.output@,
            focus_input: self.focus_input,
            just_opened: self.just_opened,
        }
    }
}

impl Console {
    /// A console with empty input, the welcome lines, no history, and the
    /// input field about to take the focus.
    pub fn new() -> (c: Self)
        ensures
            c@.input == Seq::<char>::empty(),
            c@.output.lines == output::welcome_lines(),
            c@.output.history == Seq::<Seq<char>>::empty(),
            c@.output.history_index is None,
            c@.focus_input,
            c@.just_opened,
    {
        Self {
            input_buffer: String::new(),
            commands: CommandProcessor::new(),
            output: ConsoleOutput::new(),
            focus_input: true,
            just_opened: true,
        }
    }

    /// The text being typed.
    pub fn input_buffer(&self) -> (s: &str)
        ensures
            s@ == self@.input,
    {
        self.input_buffer.as_str()
    }

    /// The text being typed, for the input field to edit.
    pub fn input_buffer_mut(&mut self) -> (s: &mut String)
        ensures
            s@ == old(self)@.input,
            final(self)@ == (ConsoleView { input: final(s)@, ..old(self)@ }),
    {
        &mut self.input_buffer
    }

    /// Replaces the text being typed.
    pub fn set_input(&mut self, text: String)
        ensures
            final(self)@ == (ConsoleView { input: text@, ..old(self)@ }),
    {
        self.input_buffer = text;
    }

    /// Output lines and command history.
    pub fn output(&self) -> (o: &ConsoleOutput)
        ensures
            o@ == self@.output,
    {
        &self.output
    }

    /// Whether the input field should take the focus.
    pub fn focus_input(&self) -> (b: bool)
        ensures
            b == self@.focus_input,
    {
        self.focus_input
    }

    /// Whether the console was just opened.
    pub fn just_opened(&self) -> (b: bool)
        ensures
            b == self@.just_opened,
    {
        self.just_opened
    }

    /// The start of a frame: returns whether the console should close (the
    /// close key was pressed and the console was not opened this frame).
    /// The just-opened mark is cleared unless the console closes.
    pub fn begin_frame(&mut self, close_key_pressed: bool) -> (close: bool)
        ensures
            close == (close_key_pressed && !old(self)@.just_opened),
            close ==> final(self)@ == old(self)@,
            !close ==> final(self)@ == (ConsoleView { just_opened: false, ..old(self)@ }),
    {
        if !self.just_opened && close_key_pressed {
            return true;
        }
        self.just_opened = false;
        false
    }

    /// Takes the request to focus the input field: returns it and clears it.
    pub fn take_focus_request(&mut self) -> (focus: bool)
        ensures
            focus == old(self)@.focus_input,
            final(self)@ == (ConsoleView { focus_input: false, ..old(self)@ }),
    {
        let focus = self.focus_input;
        self.focus_input = false;
        focus
    }

    /// Up in the history: the input becomes the entry shown, if any.
    pub fn history_up(&mut self)
        ensures
            final(self)@.output.lines == old(self)@.output.lines,
            final(self)@.output.history == old(self)@.output.history,
            final(self)@.output.history_index == output::index_after_up(
                old(self)@.output.history.len(),
                old(self)@.output.history_index,
            ),
            final(self)@.input == match output::entry_at(
                old(self)@.output.history,
                final(self)@.output.history_index,
            ) {
                Some(e) => e,
                None => old(self)@.input,
            },
            final(self)@.focus_input == old(self)@.focus_input,
            final(self)@.just_opened == old(self)@.just_opened,
    {
        if let Some(cmd) = self.output.navigate_up() {
            self.input_buffer = cmd;
        }
    }

    /// Down in the history: the input becomes the entry shown, or is cleared
    /// past the newest entry.
    pub fn history_down(&mut self)
        ensures
            final(self)@.output.lines == old(self)@.output.lines,
            final(self)@.output.history == old(self)@.output.history,
            final(self)@.output.history_index == output::index_after_down(
                old(self)@.output.history.len(),
                old(self)@.output.history_index,
            ),
            final(self)@.input == match output::entry_at(
                old(self)@.output.history,
                final(self)@.output.history_index,
            ) {
                Some(e) => e,
                None => Seq::<char>::empty(),
            },
            final(self)@.focus_input == old(self)@.focus_input,
            final(self)@.just_opened == old(self)@.just_opened,
    {
        match self.output.navigate_down() {
            Some(cmd) => self.input_buffer = cmd,
            None => self.input_buffer = String::new(),
        }
    }

    /// Submits the input line (see `after_submit`) and asks for the focus
    /// again, for the next command.
    pub fn submit(&mut self) -> (action: ConsoleAction)
        ensures
            ({
                let (c, a) = after_submit(old(self)@);
                final(self)@ == (ConsoleView { focus_input: true, ..c }) && action@ == a
            }),
    {
        let action = self.execute_command();
        self.focus_input = true;
        action
    }

    /// Executes the command in the input line (see `after_submit`).
    pub fn execute_command(&mut self) -> (action: ConsoleAction)
        ensures
            ({
                let (c, a) = after_submit(old(self)@);
                final(self)@ == c && action@ == a
            }),
    {
        let input = str_chars(self.input_buffer.as_str());
        let trimmed = trim_chars(&input);
        if trimmed.len() == 0 {
            return ConsoleAction::NoAction;
        }
        let command = string_from_chars(&trimmed);
        let mut echo = string_from_str("> ");
        push_str(&mut echo, command.as_str());
        self.output.add_line(echo);
        self.output.add_to_history(command.clone());
        let lower = lower_chars(&trimmed);
        if chars_eq(&lower, &['c', 'l', 'e', 'a', 'r']) {
            self.output.clear_output();
            self.input_buffer = String::new();
            return ConsoleAction::NoAction;
        }
        let result = self.commands.execute(command.as_str());
        let CommandResult { messages, action } = result;
        let ghost msgs = commands::texts(messages@);
        let ghost start = self.output@.lines;
        let ghost history = self.output@.history;
        assert(msgs.skip(0) =~= msgs);
        let mut i: usize = 0;
        while i < messages.len()
            invariant
                i <= messages.len(),
                msgs == commands::texts(messages@),
                push_lines(start, msgs) == push_lines(self.output@.lines, msgs.skip(i as int)),
                self.output@.history == history,
                self.output@.history_index is None,
                self.input_buffer@ == old(self)@.input,
                self.focus_input == old(self)@.focus_input,
                self.just_opened == old(self)@.just_opened,
            decreases messages.len() - i,
        {
            assert(msgs.skip(i as int).drop_first() =~= msgs.skip(i + 1));
            assert(msgs.skip(i as int)[0] == messages@[i as int]@);
            self.output.add_line(messages[i].clone());
            i = i + 1;
        }
        assert(msgs.skip(messages.len() as int) =~= Seq::<Seq<char>>::empty());
        self.input_buffer = String::new();
        action
    }

    /// Adds a line to the output.
    pub fn log(&mut self, message: String)
        ensures
            final(self)@ == (ConsoleView {
                output: ConsoleOutputView {
                    lines: output::push_bounded(
                        old(self)@.output.lines,
                        message@,
                        output::MAX_OUTPUT_LINES as nat,
                    ),
                    ..old(self)@.output
                },
                ..old(self)@
            }),
    {
        self.output.add_line(message);
    }

    /// Removes all output lines.
    pub fn clear(&mut self)
        ensures
            final(self)@ == (ConsoleView {
                output: ConsoleOutputView {
                    lines: Seq::<Seq<char>>::empty(),
                    ..old(self)@.output
                },
                ..old(self)@
            }),
    {
        self.output.clear_output();
    }

    /// Prepares the console for being opened again: the close key is ignored
    /// for a frame and the input field takes the focus.
    pub fn reset_on_open(&mut self)
        ensures
            final(self)@ == (ConsoleView { just_opened: true, focus_input: true, ..old(self)@ }),
    {
        self.just_opened = true;
        self.focus_input = true;
    }
}

impl Default for Console {
    fn default() -> (c: Self)
        ensures
            c@.input == Seq::<char>::empty(),
            c@.output.lines == output::welcome_lines(),
            c@.output.history == Seq::<Seq<char>>::empty(),
            c@.output.history_index is None,
            c@.focus_input,
            c@.just_opened,
    {
        Self::new()
    }
}

} // verus!
