//! Reading settings out of the text of the preferences file, which is in INI
//! syntax and is parsed by the `ini` crate.

use crate::text;
use crate::text::{char_lists, split_on_char, str_chars, string_from_str};
use vstd::prelude::*;

verus! {

// ---------------------------------------------------------------------------
// Inputs the INI parser cannot take
// ---------------------------------------------------------------------------

/// The part of a line before its first comment symbol (`;` or `#`).
pub open spec fn before_comment(line: Seq<char>) -> Seq<char>
    decreases line.len(),
{
    if line.len() == 0 || line[0] == ';' || line[0] == '#' {
        Seq::<char>::empty()
    } else {
        seq![line[0]] + before_comment(line.drop_first())
    }
}

/// Both brackets occur and every `]` comes before every `[`.
pub open spec fn brackets_reversed(body: Seq<char>) -> bool {
    &&& body.contains('[')
    &&& body.contains(']')
    &&& !(exists|i: int, j: int| 0 <= i < j < body.len() && body[i] == '[' && body[j] == ']')
}

/// Some line of the text, before its comment, holds a `]` only before its
/// first `[`: the INI parser slices such a section header with an empty range
/// and panics.
pub open spec fn ini_text_panics(content: Seq<char>) -> bool {
    exists|k: int|
        0 <= k < text::split_on(content, '\n').len() && brackets_reversed(
            before_comment(#[trigger] text::split_on(content, '\n')[k]),
        )
}

/// The part of a line before its comment symbol.
fn line_before_comment(line: &Vec<char>) -> (body: Vec<char>)
    ensures
        body@ == before_comment(line@),
{
    let mut i: usize = 0;
    assert(line@.skip(0) =~= line@);
    assert(line@.take(0) + line@ =~= line@);
    while i < line.len() && line[i] != ';' && line[i] != '#'
        invariant
            i <= line.len(),
            before_comment(line@) == line@.take(i as int) + before_comment(line@.skip(i as int)),
        decreases line.len() - i,
    {
        assert(line@.skip(i as int).drop_first() =~= line@.skip(i + 1));
        assert(line@.take(i + 1) =~= line@.take(i as int) + seq![line@[i as int]]);
        i = i + 1;
    }
    assert(before_comment(line@.skip(i as int)) =~= Seq::<char>::empty());
    let mut body: Vec<char> = Vec::new();
    let mut j: usize = 0;
    while j < i
        invariant
            j <= i <= line.len(),
            body@ == line@.take(j as int),
        decreases i - j,
    {
        body.push(line[j]);
        j = j + 1;
        assert(body@ =~= line@.take(j as int));
    }
    body
}

/// Tests `brackets_reversed`.
fn reversed_brackets(body: &Vec<char>) -> (r: bool)
    ensures
        r == brackets_reversed(body@),
{
    let mut open_seen = false;
    let mut close_seen = false;
    let mut ordered = false;
    let mut k: usize = 0;
    while k < body.len()
        invariant
            k <= body.len(),
            open_seen == (exists|i: int| 0 <= i < k && body@[i] == '['),
            close_seen == (exists|i: int| 0 <= i < k && body@[i] == ']'),
            ordered == (exists|i: int, j: int| 0 <= i < j < k && body@[i] == '[' && body@[j] == ']'),
        decreases body.len() - k,
    {
        let c = body[k];
        if c == ']' && open_seen {
            ordered = true;
        }
        if c == '[' {
            open_seen = true;
        }
        if c == ']' {
            close_seen = true;
        }
        k = k + 1;
    }
    open_seen && close_seen && !ordered
}

/// Whether the INI parser can take the text (see `ini_text_panics`).
pub fn ini_text_is_safe(content: &str) -> (r: bool)
    ensures
        r == !ini_text_panics(content@),
{
    let chars = str_chars(content);
    let lines = split_on_char(&chars, '\n');
    let mut k: usize = 0;
    while k < lines.len()
        invariant
            k <= lines.len(),
            char_lists(lines@) == text::split_on(content@, '\n'),
            forall|m: int|
                0 <= m < k ==> !brackets_reversed(before_comment(#[trigger] char_lists(lines@)[m])),
        decreases lines.len() - k,
    {
        let body = line_before_comment(&lines[k]);
        if reversed_brackets(&body) {
            assert(brackets_reversed(before_comment(char_lists(lines@)[k as int])));
            return false;
        }
        k = k + 1;
    }
    true
}

// ---------------------------------------------------------------------------
// The parser
// ---------------------------------------------------------------------------

/// What the `ini` crate reads for `key` in `[section]` of the text: `None`
/// when the text does not parse, `Some(None)` when the section is absent,
/// `Some(Some(None))` when the section has no value for the key, and
/// `Some(Some(Some(v)))` for the value `v`.
pub uninterp spec fn ini_entry(content: Seq<char>, section: Seq<char>, key: Seq<char>) -> Option<
    Option<Option<Seq<char>>>,
>;

/// The character view of a looked-up INI entry.
pub open spec fn entry_view(r: Result<Option<Option<String>>, ()>) -> Option<
    Option<Option<Seq<char>>>,
> {
    match r {
        Err(_) => None,
        Ok(None) => Some(None),
        Ok(Some(None)) => Some(Some(None)),
        Ok(Some(Some(v))) => Some(Some(Some(v@))),
    }
}

/// Parses the text with `ini::macro_safe_read` and looks up one key: the
/// result is the name `ini_entry` of the text, section and key.  The parser
/// lower-cases section names and keys; the lookups here are made with
/// lower-case names.
#[verifier::external_body]
fn read_ini_entry(content: &str, section: &str, key: &str) -> (r: Result<
    Option<Option<String>>,
    (),
>)
    requires
        !ini_text_panics(content@),
    ensures
        entry_view(r) == ini_entry(content@, section@, key@),
{
    match ini::macro_safe_read(content) {
        Ok(map) => Ok(map.get(section).map(|entries| entries.get(key).cloned().flatten())),
        Err(_) => Err(()),
    }
}

/// The value of `key` in `[section]`, when the text parses and holds one.
pub open spec fn ini_value(content: Seq<char>, section: Seq<char>, key: Seq<char>) -> Option<
    Seq<char>,
> {
    match ini_entry(content, section, key) {
        Some(Some(Some(v))) => Some(v),
        _ => None,
    }
}

/// The value of `key` in `[section]` of the preferences text, if any.
pub fn ini_setting(content: &str, section: &str, key: &str) -> (r: Option<String>)
    requires
        !ini_text_panics(content@),
    ensures
        r matches Some(v) ==> ini_value(content@, section@, key@) == Some(v@),
        r is None ==> ini_value(content@, section@, key@) is None,
{
    match read_ini_entry(content, section, key) {
        Ok(Some(Some(v))) => Some(v),
        _ => None,
    }
}

/// The value of a control setting: read from `[prefs]` when that section
/// exists, else from the parser's `[default]` section (keys that precede any
/// section header).
pub open spec fn prefs_value(content: Seq<char>, key: Seq<char>) -> Option<Seq<char>> {
    match ini_entry(content, "prefs"@, key) {
        Some(Some(Some(v))) => Some(v),
        Some(Some(None)) => None,
        Some(None) => ini_value(content, "default"@, key),
        None => None,
    }
}

/// The value of a control setting (see `prefs_value`).
pub fn prefs_setting(content: &str, key: &str) -> (r: Option<String>)
    requires
        !ini_text_panics(content@),
    ensures
        r matches Some(v) ==> prefs_value(content@, key@) == Some(v@),
        r is None ==> prefs_value(content@, key@) is None,
{
    match read_ini_entry(content, "prefs", key) {
        Ok(Some(Some(v))) => Some(v),
        Ok(Some(None)) => None,
        Ok(None) => ini_setting(content, "default", key),
        Err(_) => None,
    }
}

} // verus!
