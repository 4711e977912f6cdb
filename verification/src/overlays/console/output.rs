//! Console output lines and command history, both bounded, with up/down
//! navigation through the history.

use crate::text::string_from_str;
use std::collections::VecDeque;
use vstd::prelude::*;

verus! {

/// Maximum number of commands kept in the history.
pub const MAX_HISTORY: usize = 100;

/// Maximum number of output lines kept.
pub const MAX_OUTPUT_LINES: usize = 20;

/// The texts of a sequence of strings.
pub open spec fn texts(v: Seq<String>) -> Seq<Seq<char>> {
    Seq::new(v.len(), |i: int| v[i]@)
}

/// Appends `x` and, when that makes `s` longer than `max`, drops the oldest
/// entry.
pub open spec fn push_bounded(s: Seq<Seq<char>>, x: Seq<char>, max: nat) -> Seq<Seq<char>> {
    if s.len() + 1 > max {
        s.push(x).drop_first()
    } else {
        s.push(x)
    }
}

/// A bounded append keeps at most `max` entries, ends with the new entry,
/// and keeps the newest of the earlier entries in order.
pub proof fn lemma_push_bounded_keeps_newest(s: Seq<Seq<char>>, x: Seq<char>, max: nat)
    requires
        max > 0,
        s.len() <= max,
    ensures
        push_bounded(s, x, max).len() == (if s.len() + 1 > max {
            max
        } else {
            s.len() + 1
        }),
        push_bounded(s, x, max).last() == x,
        push_bounded(s, x, max).drop_last() == s.skip(s.len() + 1 - push_bounded(s, x, max).len()),
{
    let r = push_bounded(s, x, max);
    assert(r.drop_last() =~= s.skip(s.len() + 1 - r.len()));
}

/// Up from no position shows the newest entry; Up then Down returns to the
/// position left (when it was not the oldest); Up at the oldest entry stays
/// there; Down past the newest entry leaves navigation.
pub proof fn lemma_history_navigation(len: nat, i: usize)
    requires
        0 < len <= MAX_HISTORY,
        i < len,
    ensures
        index_after_up(len, None) == Some((len - 1) as usize),
        i > 0 ==> index_after_down(len, index_after_up(len, Some(i))) == Some(i),
        index_after_up(len, Some(0usize)) == Some(0usize),
        index_after_down(len, Some((len - 1) as usize)) is None,
{
}

/// What the console output holds: the output lines (oldest first), the
/// command history (oldest first) and the history position being shown.
pub struct ConsoleOutputView {
    pub lines: Seq<Seq<char>>,
    pub history: Seq<Seq<char>>,
    pub history_index: Option<usize>,
}

/// The history position after pressing Up: the newest entry when none is
/// shown, else one older, staying at the oldest.  Nothing changes with an
/// empty history.
pub open spec fn index_after_up(history_len: nat, index: Option<usize>) -> Option<usize> {
    if history_len == 0 {
        index
    } else {
        match index {
            None => Some((history_len - 1) as usize),
            Some(i) => if i > 0 {
                Some((i - 1) as usize)
            } else {
                Some(i)
            },
        }
    }
}

/// The history position after pressing Down: one newer, or none past the
/// newest entry.  Nothing changes with an empty history.
pub open spec fn index_after_down(history_len: nat, index: Option<usize>) -> Option<usize> {
    if history_len == 0 {
        index
    } else {
        match index {
            None => None,
            Some(i) => if i + 1 < history_len {
                Some((i + 1) as usize)
            } else {
                None
            },
        }
    }
}

/// The history entry shown at a position (none with an empty history).
pub open spec fn entry_at(history: Seq<Seq<char>>, index: Option<usize>) -> Option<Seq<char>> {
    if history.len() == 0 {
        None
    } else {
        match index {
            Some(i) => Some(history[i as int]),
            None => None,
        }
    }
}

/// The welcome lines of a new console.
pub open spec fn welcome_lines() -> Seq<Seq<char>> {
    seq!["Debug Console"@, "Type 'help' for available commands"@, ""@]
}

/// Output lines and command history of the debug console.
pub struct ConsoleOutput {
    output: VecDeque<String>,
    history: VecDeque<String>,
    history_index: Option<usize>,
}

impl View for ConsoleOutput {
    type V = ConsoleOutputView;

    closed spec fn view(&self) -> ConsoleOutputView {
        ConsoleOutputView {
            lines: texts(self.output@),
            history: texts(self.history@),
            history_index: self.history_index,
        }
    }
}

impl ConsoleOutput {
    /// At most `MAX_OUTPUT_LINES` lines and `MAX_HISTORY` commands are kept,
    /// and the history position, when set, is that of an entry.
    #[verifier::type_invariant]
    spec fn bounded(&self) -> bool {
        &&& self.output@.len() <= MAX_OUTPUT_LINES
        &&& self.history@.len() <= MAX_HISTORY
        &&& (self.history_index matches Some(i) ==> i < self.history@.len())
    }

    /// The invariant, seen through the view.
    pub open spec fn wf(v: ConsoleOutputView) -> bool {
        &&& v.lines.len() <= MAX_OUTPUT_LINES
        &&& v.history.len() <= MAX_HISTORY
        &&& (v.history_index matches Some(i) ==> i < v.history.len())
    }

    /// An output holding the welcome lines and an empty history.
    pub fn new() -> (o: Self)
        ensures
            o@.lines == welcome_lines(),
            o@.history == Seq::<Seq<char>>::empty(),
            o@.history_index is None,
            Self::wf(o@),
    {
        let mut output: VecDeque<String> = VecDeque::with_capacity(MAX_OUTPUT_LINES);
        output.push_back(string_from_str("Debug Console"));
        output.push_back(string_from_str("Type 'help' for available commands"));
        output.push_back(string_from_str(""));
        let o = Self {
            output,
            history: VecDeque::with_capacity(MAX_HISTORY),
            history_index: None,
        };
        assert(texts(o.output@) =~= welcome_lines());
        assert(texts(o.history@) =~= Seq::<Seq<char>>::empty());
        o
    }

    /// Adds an output line, dropping the oldest when more than
    /// `MAX_OUTPUT_LINES` would be kept.
    pub fn add_line(&mut self, line: String)
        ensures
            final(self)@.lines == push_bounded(old(self)@.lines, line@, MAX_OUTPUT_LINES as nat),
            final(self)@.history == old(self)@.history,
            final(self)@.history_index == old(self)@.history_index,
            Self::wf(final(self)@),
    {
        proof {
            use_type_invariant(&*self);
        }
        let ghost l = line@;
        let ghost before = self.output@;
        let mut output = VecDeque::new();
        std::mem::swap(&mut output, &mut self.output);
        output.push_back(line);
        if output.len() > MAX_OUTPUT_LINES {
            let _ = output.pop_front();
        }
        self.output = output;
        assert(texts(self.output@) =~= push_bounded(texts(before), l, MAX_OUTPUT_LINES as nat));
    }

    /// Adds a command to the history, dropping the oldest when more than
    /// `MAX_HISTORY` would be kept, and leaves history navigation.
    pub fn add_to_history(&mut self, command: String)
        ensures
            final(self)@.history == push_bounded(old(self)@.history, command@, MAX_HISTORY as nat),
            final(self)@.history_index is None,
            final(self)@.lines == old(self)@.lines,
            Self::wf(final(self)@),
    {
        proof {
            use_type_invariant(&*self);
        }
        let ghost c = command@;
        let ghost before = self.history@;
        self.history_index = None;
        let mut history = VecDeque::new();
        std::mem::swap(&mut history, &mut self.history);
        history.push_back(command);
        if history.len() > MAX_HISTORY {
            let _ = history.pop_front();
        }
        self.history = history;
        assert(texts(self.history@) =~= push_bounded(texts(before), c, MAX_HISTORY as nat));
    }

    /// Moves one entry back in the history (see `index_after_up`) and
    /// returns the entry now shown.
    pub fn navigate_up(&mut self) -> (entry: Option<String>)
        ensures
            final(self)@.lines == old(self)@.lines,
            final(self)@.history == old(self)@.history,
            final(self)@.history_index == index_after_up(
                old(self)@.history.len(),
                old(self)@.history_index,
            ),
            entry_view(entry) == entry_at(old(self)@.history, final(self)@.history_index),
            Self::wf(final(self)@),
    {
        proof {
            use_type_invariant(&*self);
        }
        if self.history.len() == 0 {
            return None;
        }
        let new_index: usize = match self.history_index {
            None => self.history.len() - 1,
            Some(idx) => if idx > 0 {
                idx - 1
            } else {
                idx
            },
        };
        self.history_index = Some(new_index);
        Some(self.history[new_index].clone())
    }

    /// Moves one entry forward in the history (see `index_after_down`) and
    /// returns the entry now shown; `None` past the newest entry means the
    /// input should be cleared.
    pub fn navigate_down(&mut self) -> (entry: Option<String>)
        ensures
            final(self)@.lines == old(self)@.lines,
            final(self)@.history == old(self)@.history,
            final(self)@.history_index == index_after_down(
                old(self)@.history.len(),
                old(self)@.history_index,
            ),
            entry_view(entry) == entry_at(old(self)@.history, final(self)@.history_index),
            Self::wf(final(self)@),
    {
        proof {
            use_type_invariant(&*self);
        }
        if self.history.len() == 0 {
            return None;
        }
        let new_index: Option<usize> = match self.history_index {
            None => None,
            Some(idx) => if idx < self.history.len() - 1 {
                Some(idx + 1)
            } else {
                None
            },
        };
        self.history_index = new_index;
        match new_index {
            Some(i) => Some(self.history[i].clone()),
            None => None,
        }
    }

    /// The output lines, oldest first.
    pub fn lines(&self) -> (l: &VecDeque<String>)
        ensures
            texts(l@) == self@.lines,
    {
        &self.output
    }

    /// Removes all output lines.
    pub fn clear_output(&mut self)
        ensures
            final(self)@.lines == Seq::<Seq<char>>::empty(),
            final(self)@.history == old(self)@.history,
            final(self)@.history_index == old(self)@.history_index,
            Self::wf(final(self)@),
    {
        proof {
            use_type_invariant(&*self);
        }
        let mut output = VecDeque::new();
        std::mem::swap(&mut output, &mut self.output);
        output.clear();
        self.output = output;
        assert(texts(self.output@) =~= Seq::<Seq<char>>::empty());
    }

    /// The number of commands in the history.
    pub fn history_len(&self) -> (n: usize)
        ensures
            n == self@.history.len(),
            Self::wf(self@),
    {
        proof {
            use_type_invariant(self);
        }
        self.history.len()
    }

    /// The history position being shown.
    pub fn history_index(&self) -> (i: Option<usize>)
        ensures
            i == self@.history_index,
    {
        self.history_index
    }
}

/// The text of an optional string.
pub open spec fn entry_view(e: Option<String>) -> Option<Seq<char>> {
    match e {
        Some(s) => Some(s@),
        None => None,
    }
}

impl Default for ConsoleOutput {
    fn default() -> (o: Self)
        ensures
            o@.lines == welcome_lines(),
            o@.history == Seq::<Seq<char>>::empty(),
            o@.history_index is None,
    {
        Self::new()
    }
}

} // verus!
