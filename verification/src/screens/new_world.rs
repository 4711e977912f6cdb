//! The New World screen: the world name, seed and size the user entered,
//! and the world description they make.

use crate::text;
use crate::text::{parse_u64_chars, str_chars, string_from_chars, string_from_str, trim_chars,
    u64_decimal_chars};
use vstd::prelude::*;

verus! {

/// Longest world name kept, in characters.
pub const MAX_WORLD_NAME_CHARS: usize = 64;

/// What a new world is generated from.
pub struct WorldSpec {
    /// The world's name.
    pub name: String,
    /// The generation seed; a random one when absent.
    pub seed: Option<u64>,
    /// The world's extent along X and Z, in blocks.
    pub size_xz: u32,
}

/// The world name for an entered name: the trimmed text cut to 64
/// characters, or `New World` when it is blank.
pub open spec fn world_name(input: Seq<char>) -> Seq<char> {
    let t = text::trim(input);
    if t.len() == 0 {
        "New World"@
    } else if t.len() > MAX_WORLD_NAME_CHARS {
        t.take(MAX_WORLD_NAME_CHARS as int)
    } else {
        t
    }
}

/// The seed for an entered seed: none when blank, else the trimmed text read
/// as a decimal `u64` (none when it is not one).
pub open spec fn world_seed(input: Seq<char>) -> Option<u64> {
    let t = text::trim(input);
    if t.len() == 0 {
        None
    } else {
        text::decimal_u64(t)
    }
}

/// The seed the form shows after opening is the seed the world gets: the
/// decimal text of a seed reads back as that seed.
pub proof fn lemma_shown_seed_is_used(n: u64)
    ensures
        world_seed(text::decimal_text(n as nat)) == Some(n),
{
    let t = text::decimal_text(n as nat);
    text::lemma_decimal_text_reads_back(n as nat);
    assert(text::is_digit(t[0]));
    assert(text::is_digit(t.last()));
    assert(text::trim(t) == t);
}

/// A random number from the thread-local generator (`rand::random`): any
/// `u64` may come back.  It panics only when the operating system's random
/// source cannot seed the generator.
#[verifier::external_body]
fn random_seed() -> (n: u64) {
    rand::random::<u64>()
}

/// The New World form.
pub struct NewWorldMenu {
    name_input: String,
    seed_input: String,
    size_xz: u32,
}

impl NewWorldMenu {
    /// The form with the name `New World`, no seed and size 128.
    pub fn new() -> (m: Self)
        ensures
            m.name_text()@ == "New World"@,
            m.seed_text()@ == Seq::<char>::empty(),
            m.size() == 128,
    {
        Self { name_input: string_from_str("New World"), seed_input: String::new(), size_xz: 128 }
    }

    /// The entered name.
    pub closed spec fn name_text(&self) -> String {
        self.name_input
    }

    /// The entered seed.
    pub closed spec fn seed_text(&self) -> String {
        self.seed_input
    }

    /// The chosen size.
    pub closed spec fn size(&self) -> u32 {
        self.size_xz
    }

    /// The name field, for editing.
    pub fn name_input_mut(&mut self) -> (s: &mut String)
        ensures
            *s == old(self).name_text(),
            final(self).name_text() == *final(s),
            final(self).seed_text() == old(self).seed_text(),
            final(self).size() == old(self).size(),
    {
        &mut self.name_input
    }

    /// The seed field, for editing.
    pub fn seed_input_mut(&mut self) -> (s: &mut String)
        ensures
            *s == old(self).seed_text(),
            final(self).seed_text() == *final(s),
            final(self).name_text() == old(self).name_text(),
            final(self).size() == old(self).size(),
    {
        &mut self.seed_input
    }

    /// The chosen size.
    pub fn size_xz(&self) -> (n: u32)
        ensures
            n == self.size(),
    {
        self.size_xz
    }

    /// Chooses the size.
    pub fn set_size_xz(&mut self, size_xz: u32)
        ensures
            final(self).size() == size_xz,
            final(self).name_text() == old(self).name_text(),
            final(self).seed_text() == old(self).seed_text(),
    {
        self.size_xz = size_xz;
    }

    /// The world the form describes (the Continue button).
    pub fn world_spec(&self) -> (w: WorldSpec)
        ensures
            w.name@ == world_name(self.name_text()@),
            w.seed == world_seed(self.seed_text()@),
            w.size_xz == self.size(),
    {
        let name_chars = trim_chars(&str_chars(self.name_input.as_str()));
        let name = if name_chars.len() == 0 {
            string_from_str("New World")
        } else if name_chars.len() > MAX_WORLD_NAME_CHARS {
            let mut cut: Vec<char> = Vec::new();
            let mut i: usize = 0;
            while i < MAX_WORLD_NAME_CHARS
                invariant
                    i <= MAX_WORLD_NAME_CHARS < name_chars.len(),
                    cut@ == name_chars@.take(i as int),
                decreases MAX_WORLD_NAME_CHARS - i,
            {
                cut.push(name_chars[i]);
                i = i + 1;
                assert(cut@ =~= name_chars@.take(i as int));
            }
            string_from_chars(&cut)
        } else {
            string_from_chars(&name_chars)
        };
        let seed_chars = trim_chars(&str_chars(self.seed_input.as_str()));
        let seed = if seed_chars.len() == 0 {
            None
        } else {
            parse_u64_chars(&seed_chars)
        };
        WorldSpec { name, seed, size_xz: self.size_xz }
    }

    /// The form is being shown: the seed field is filled with a random
    /// seed, which the user may keep or edit.
    pub fn on_show(&mut self)
        ensures
            exists|n: u64| final(self).seed_text()@ == text::decimal_text(n as nat),
            final(self).name_text() == old(self).name_text(),
            final(self).size() == old(self).size(),
    {
        let seed = random_seed();
        let digits = u64_decimal_chars(seed);
        self.seed_input = string_from_chars(&digits);
    }

    /// The screen's name.
    pub fn name(&self) -> (s: &'static str)
        ensures
            s@ == "new_world"@,
    {
        "new_world"
    }
}

impl Default for NewWorldMenu {
    fn default() -> (m: Self)
        ensures
            m.name_text()@ == "New World"@,
            m.seed_text()@ == Seq::<char>::empty(),
            m.size() == 128,
    {
        Self::new()
    }
}

} // verus!
