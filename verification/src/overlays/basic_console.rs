//! A minimal debug console that only echoes and acknowledges commands: its
//! history skips a command repeated right after itself.

use super::console::output::{push_bounded, texts, MAX_HISTORY, MAX_OUTPUT_LINES};
use super::console::{commands, push_lines};
use crate::text;
use crate::text::{chars_eq, lower_chars, push_str, push_vec, split_whitespace_chars, str_chars,
    string_from_chars, string_from_str, trim_chars};
use std::collections::VecDeque;
use vstd::prelude::*;

verus! {

/// What the console holds.
pub struct BasicConsoleView {
    pub input: Seq<char>,
    pub history: Seq<Seq<char>>,
    pub history_index: Option<usize>,
    pub lines: Seq<Seq<char>>,
    pub focus_input: bool,
}

/// The help lines of this console.
pub open spec fn basic_help_lines() -> Seq<Seq<char>> {
    seq![
        "Available commands:"@,
        "  help - Show this help message"@,
        "  clear - Clear the console output"@,
        "  quit - Exit the application"@,
        "  god - Toggle god mode (invincibility)"@,
        "  noclip - Toggle noclip mode (fly through walls)"@,
    ]
}

/// The output lines after handling a command, given its words.
pub open spec fn lines_after_command(lines: Seq<Seq<char>>, ws: Seq<Seq<char>>) -> Seq<Seq<char>> {
    if ws.len() == 0 {
        lines
    } else {
        let w = ws[0];
        if commands::names(w, seq!['h', 'e', 'l', 'p']) {
            push_lines(lines, basic_help_lines())
        } else if commands::names(w, seq!['c', 'l', 'e', 'a', 'r']) {
            Seq::<Seq<char>>::empty()
        } else if commands::names(w, seq!['q', 'u', 'i', 't']) {
            push_lines(lines, seq!["Quit command recognized (event will be published)"@])
        } else if commands::names(w, seq!['g', 'o', 'd']) {
            push_lines(lines, seq!["God mode command recognized (event will be published)"@])
        } else if commands::names(w, seq!['n', 'o', 'c', 'l', 'i', 'p']) {
            push_lines(lines, seq!["Noclip command recognized (event will be published)"@])
        } else {
            push_lines(
                lines,
                seq!["Unknown command: '"@ + w + "'"@, "Type 'help' for available commands"@],
            )
        }
    }
}

/// The history after submitting `cmd`: it is added unless it repeats the
/// newest entry, keeping at most `MAX_HISTORY` entries.
pub open spec fn history_after(history: Seq<Seq<char>>, cmd: Seq<char>) -> Seq<Seq<char>> {
    if history.len() > 0 && history.last() == cmd {
        history
    } else {
        push_bounded(history, cmd, MAX_HISTORY as nat)
    }
}

/// No entry repeats the one before it.
pub open spec fn no_adjacent_repeats(h: Seq<Seq<char>>) -> bool {
    forall|i: int| 0 < i < h.len() ==> #[trigger] h[i] != h[i - 1]
}

/// Recording commands never puts the same command twice in a row in the
/// history.
pub proof fn lemma_history_has_no_adjacent_repeats(h: Seq<Seq<char>>, cmd: Seq<char>)
    requires
        no_adjacent_repeats(h),
        h.len() <= MAX_HISTORY,
    ensures
        no_adjacent_repeats(history_after(h, cmd)),
        history_after(h, cmd).len() <= MAX_HISTORY,
        history_after(h, cmd).len() > 0 && history_after(h, cmd).last() == cmd,
{
    if !(h.len() > 0 && h.last() == cmd) {
        let r = push_bounded(h, cmd, MAX_HISTORY as nat);
        let pushed = h.push(cmd);
        assert forall|i: int| 0 < i < r.len() implies #[trigger] r[i] != r[i - 1] by {
            if h.len() + 1 > MAX_HISTORY {
                assert(r[i] == pushed[i + 1]);
                assert(r[i - 1] == pushed[i]);
                if i + 1 < pushed.len() - 1 {
                    assert(h[i + 1] != h[i]);
                }
            } else {
                if i < h.len() {
                    assert(h[i] != h[i - 1]);
                }
            }
        }
    }
}

/// Submitting the input line: blank input (after trimming) changes nothing;
/// otherwise the trimmed command is echoed as `> <command>`, recorded in the
/// history, handled, and the input cleared.
pub open spec fn after_execute(c: BasicConsoleView) -> BasicConsoleView {
    let cmd = text::trim(c.input);
    if cmd.len() == 0 {
        c
    } else {
        BasicConsoleView {
            input: Seq::<char>::empty(),
            history: history_after(c.history, cmd),
            history_index: None,
            lines: lines_after_command(
                push_bounded(c.lines, "> "@ + cmd, MAX_OUTPUT_LINES as nat),
                text::words(cmd),
            ),
            ..c
        }
    }
}

/// A minimal debug console.
pub struct Console {
    input_buffer: String,
    history: VecDeque<String>,
    history_index: Option<usize>,
    output: VecDeque<String>,
    focus_input: bool,
}

impl View for Console {
    type V = BasicConsoleView;

    closed spec fn view(&self) -> BasicConsoleView {
        BasicConsoleView {
            input: self.input_buffer@,
            history: texts(self.history@),
            history_index: self.history_index,
            lines: texts(self.output@),
            focus_input: self.focus_input,
        }
    }
}

/// The bounds every console keeps.
pub open spec fn basic_wf(c: BasicConsoleView) -> bool {
    &&& c.lines.len() <= MAX_OUTPUT_LINES
    &&& c.history.len() <= MAX_HISTORY
    &&& (c.history_index matches Some(i) ==> i < c.history.len())
}

impl Console {
    #[verifier::type_invariant]
    spec fn bounded(&self) -> bool {
        &&& self.output@.len() <= MAX_OUTPUT_LINES
        &&& self.history@.len() <= MAX_HISTORY
        &&& (self.history_index matches Some(i) ==> i < self.history@.len())
    }

    /// A console with empty input and history and the welcome lines.
    pub fn new() -> (c: Self)
        ensures
            c@.input == Seq::<char>::empty(),
            c@.history == Seq::<Seq<char>>::empty(),
            c@.history_index is None,
            c@.lines == super::console::output::welcome_lines(),
            c@.focus_input,
    {
        let mut output: VecDeque<String> = VecDeque::with_capacity(MAX_OUTPUT_LINES);
        output.push_back(string_from_str("Debug Console"));
        output.push_back(string_from_str("Type 'help' for available commands"));
        output.push_back(string_from_str(""));
        let c = Self {
            input_buffer: String::new(),
            history: VecDeque::with_capacity(MAX_HISTORY),
            history_index: None,
            output,
            focus_input: true,
        };
        assert(texts(c.output@) =~= super::console::output::welcome_lines());
        assert(texts(c.history@) =~= Seq::<Seq<char>>::empty());
        c
    }

    /// The text being typed.
    pub fn input_buffer(&self) -> (s: &str)
        ensures
            s@ == self@.input,
    {
        self.input_buffer.as_str()
    }

    /// Replaces the text being typed.
    pub fn set_input(&mut self, text: String)
        ensures
            final(self)@ == (BasicConsoleView { input: text@, ..old(self)@ }),
    {
        proof {
            use_type_invariant(&*self);
        }
        self.input_buffer = text;
    }

    /// The output lines, oldest first.
    pub fn output(&self) -> (l: &VecDeque<String>)
        ensures
            texts(l@) == self@.lines,
            basic_wf(self@),
    {
        proof {
            use_type_invariant(self);
        }
        &self.output
    }

    /// The command history, oldest first.
    pub fn history(&self) -> (h: &VecDeque<String>)
        ensures
            texts(h@) == self@.history,
            basic_wf(self@),
    {
        proof {
            use_type_invariant(self);
        }
        &self.history
    }

    /// The history position being shown.
    pub fn history_index(&self) -> (i: Option<usize>)
        ensures
            i == self@.history_index,
    {
        self.history_index
    }

    /// Takes the request to focus the input field.
    pub fn take_focus_request(&mut self) -> (focus: bool)
        ensures
            focus == old(self)@.focus_input,
            final(self)@ == (BasicConsoleView { focus_input: false, ..old(self)@ }),
    {
        proof {
            use_type_invariant(&*self);
        }
        let focus = self.focus_input;
        self.focus_input = false;
        focus
    }

    /// Submits the input line (see `after_execute`) and asks for the focus
    /// again.
    pub fn submit(&mut self)
        ensures
            final(self)@ == (BasicConsoleView { focus_input: true, ..after_execute(old(self)@) }),
            basic_wf(final(self)@),
    {
        self.execute_command();
        proof {
            use_type_invariant(&*self);
        }
        self.focus_input = true;
    }

    /// Executes the command in the input line (see `after_execute`).
    pub fn execute_command(&mut self)
        ensures
            final(self)@ == after_execute(old(self)@),
            basic_wf(final(self)@),
    {
        proof {
            use_type_invariant(&*self);
        }
        let input = str_chars(self.input_buffer.as_str());
        let trimmed = trim_chars(&input);
        if trimmed.len() == 0 {
            return;
        }
        let command = string_from_chars(&trimmed);
        let mut echo = string_from_str("> ");
        push_str(&mut echo, command.as_str());
        self.add_output(echo);
        self.record(command.clone());
        self.handle_command(command.as_str());
        proof {
            use_type_invariant(&*self);
        }
        self.input_buffer = String::new();
    }

    /// Records a command in the history (see `history_after`) and leaves
    /// history navigation.
    fn record(&mut self, command: String)
        ensures
            final(self)@ == (BasicConsoleView {
                history: history_after(old(self)@.history, command@),
                history_index: None,
                ..old(self)@
            }),
    {
        proof {
            use_type_invariant(&*self);
        }
        let ghost c = command@;
        let ghost before = self.history@;
        self.history_index = None;
        let n = self.history.len();
        let repeated = n > 0 && self.history[n - 1] == command;
        assert(n > 0 ==> texts(before).last() == before[n - 1]@);
        if !repeated {
            let mut history = VecDeque::new();
            std::mem::swap(&mut history, &mut self.history);
            history.push_back(command);
            if history.len() > MAX_HISTORY {
                let _ = history.pop_front();
            }
            self.history = history;
            assert(texts(self.history@) =~= push_bounded(texts(before), c, MAX_HISTORY as nat));
        }
    }

    /// Adds lines in order.
    fn add_lines(&mut self, lines: Vec<String>)
        ensures
            final(self)@ == (BasicConsoleView {
                lines: push_lines(old(self)@.lines, texts(lines@)),
                ..old(self)@
            }),
    {
        let ghost msgs = texts(lines@);
        let ghost start = self@.lines;
        assert(msgs.skip(0) =~= msgs);
        let mut i: usize = 0;
        while i < lines.len()
            invariant
                i <= lines.len(),
                msgs == texts(lines@),
                push_lines(start, msgs) == push_lines(self@.lines, msgs.skip(i as int)),
                self@ == (BasicConsoleView { lines: self@.lines, ..old(self)@ }),
            decreases lines.len() - i,
        {
            assert(msgs.skip(i as int).drop_first() =~= msgs.skip(i + 1));
            assert(msgs.skip(i as int)[0] == lines@[i as int]@);
            self.add_output(lines[i].clone());
            i = i + 1;
        }
        assert(msgs.skip(lines.len() as int) =~= Seq::<Seq<char>>::empty());
    }

    /// Handles a command (see `lines_after_command`).
    pub fn handle_command(&mut self, command: &str)
        ensures
            final(self)@ == (BasicConsoleView {
                lines: lines_after_command(old(self)@.lines, text::words(command@)),
                ..old(self)@
            }),
    {
        let chars = str_chars(command);
        let parts = split_whitespace_chars(&chars);
        let ghost ws = text::char_lists(parts@);
        if parts.len() == 0 {
            return;
        }
        assert(ws[0] == parts@[0]@);
        let w = lower_chars(&parts[0]);
        let mut m: Vec<String> = Vec::new();
        if chars_eq(&w, &['h', 'e', 'l', 'p']) {
            m.push(string_from_str("Available commands:"));
            m.push(string_from_str("  help - Show this help message"));
            m.push(string_from_str("  clear - Clear the console output"));
            m.push(string_from_str("  quit - Exit the application"));
            m.push(string_from_str("  god - Toggle god mode (invincibility)"));
            m.push(string_from_str("  noclip - Toggle noclip mode (fly through walls)"));
            assert(texts(m@) =~= basic_help_lines());
        } else if chars_eq(&w, &['c', 'l', 'e', 'a', 'r']) {
            self.clear();
            return;
        } else if chars_eq(&w, &['q', 'u', 'i', 't']) {
            m.push(string_from_str("Quit command recognized (event will be published)"));
            assert(texts(m@) =~= seq!["Quit command recognized (event will be published)"@]);
        } else if chars_eq(&w, &['g', 'o', 'd']) {
            m.push(string_from_str("God mode command recognized (event will be published)"));
            assert(texts(m@) =~= seq!["God mode command recognized (event will be published)"@]);
        } else if chars_eq(&w, &['n', 'o', 'c', 'l', 'i', 'p']) {
            m.push(string_from_str("Noclip command recognized (event will be published)"));
            assert(texts(m@) =~= seq!["Noclip command recognized (event will be published)"@]);
        } else {
            let mut first = string_from_str("Unknown command: '");
            push_vec(&mut first, &parts[0]);
            push_str(&mut first, "'");
            m.push(first);
            m.push(string_from_str("Type 'help' for available commands"));
            assert(texts(m@) =~= seq![
                "Unknown command: '"@ + ws[0] + "'"@,
                "Type 'help' for available commands"@,
            ]);
        }
        self.add_lines(m);
    }

    /// Adds an output line, dropping the oldest beyond `MAX_OUTPUT_LINES`.
    pub fn add_output(&mut self, line: String)
        ensures
            final(self)@ == (BasicConsoleView {
                lines: push_bounded(old(self)@.lines, line@, MAX_OUTPUT_LINES as nat),
                ..old(self)@
            }),
    {
        proof {
            use_type_invariant(&*self);
        }
        let ghost l = line@;
        let ghost before = self.output@;
        let mut output = VecDeque::new();
        std::mem::swap(&mut output, &mut self.output);
        output.push_back(line);
        if output.len() > MAX_OUTPUT_LINES {
            let _ = output.pop_front();
        }
        self.output = output;
        assert(texts(self.output@) =~= push_bounded(texts(before), l, MAX_OUTPUT_LINES as nat));
    }

    /// Up in the history: shows the newest entry, or the one before the
    /// entry shown (staying at the oldest), in the input.  Nothing happens
    /// with an empty history.
    pub fn history_up(&mut self)
        ensures
            old(self)@.history.len() == 0 ==> final(self)@ == old(self)@,
            old(self)@.history.len() > 0 ==> ({
                let i = super::console::output::index_after_up(
                    old(self)@.history.len(),
                    old(self)@.history_index,
                )->0;
                final(self)@ == (BasicConsoleView {
                    history_index: Some(i),
                    input: old(self)@.history[i as int],
                    ..old(self)@
                })
            }),
    {
        proof {
            use_type_invariant(&*self);
        }
        if self.history.len() == 0 {
            return;
        }
        let idx: usize = match self.history_index {
            None => self.history.len() - 1,
            Some(i) => if i > 0 {
                i - 1
            } else {
                i
            },
        };
        self.history_index = Some(idx);
        self.input_buffer = self.history[idx].clone();
    }

    /// Down in the history: shows the next newer entry; past the newest the
    /// input is cleared and no entry is shown.  With no entry shown, or an
    /// empty history, nothing happens.
    pub fn history_down(&mut self)
        ensures
            (old(self)@.history.len() == 0 || old(self)@.history_index is None) ==> final(self)@
                == old(self)@,
            old(self)@.history.len() > 0 ==> (old(self)@.history_index matches Some(i) ==> (if i
                + 1 < old(self)@.history.len() {
                final(self)@ == (BasicConsoleView {
                    history_index: Some((i + 1) as usize),
                    input: old(self)@.history[i + 1],
                    ..old(self)@
                })
            } else {
                final(self)@ == (BasicConsoleView {
                    history_index: None,
                    input: Seq::<char>::empty(),
                    ..old(self)@
                })
            })),
    {
        proof {
            use_type_invariant(&*self);
        }
        if self.history.len() == 0 {
            return;
        }
        match self.history_index {
            None => {},
            Some(i) => {
                if i < self.history.len() - 1 {
                    self.history_index = Some(i + 1);
                    self.input_buffer = self.history[i + 1].clone();
                } else {
                    self.input_buffer = String::new();
                    self.history_index = None;
                }
            },
        }
    }

    /// Adds a line to the output.
    pub fn log(&mut self, message: String)
        ensures
            final(self)@ == (BasicConsoleView {
                lines: push_bounded(old(self)@.lines, message@, MAX_OUTPUT_LINES as nat),
                ..old(self)@
            }),
    {
        self.add_output(message);
    }

    /// Removes all output lines.
    pub fn clear(&mut self)
        ensures
            final(self)@ == (BasicConsoleView { lines: Seq::<Seq<char>>::empty(), ..old(self)@ }),
    {
        proof {
            use_type_invariant(&*self);
        }
        let mut output = VecDeque::new();
        std::mem::swap(&mut output, &mut self.output);
        output.clear();
        self.output = output;
        assert(texts(self.output@) =~= Seq::<Seq<char>>::empty());
    }
}

impl Default for Console {
    fn default() -> (c: Self)
        ensures
            c@.input == Seq::<char>::empty(),
            c@.history == Seq::<Seq<char>>::empty(),
            c@.history_index is None,
            c@.lines == super::console::output::welcome_lines(),
            c@.focus_input,
    {
        Self::new()
    }
}

} // verus!
