//! Key names as written in the preferences file, and the key codes they
//! stand for.

use crate::text;
use crate::text::{chars_eq, parse_u32_chars, str_chars, upper_char, upper_chars};
use vstd::prelude::*;

verus! {

/// Punctuation keys that are named by their own character.
pub open spec fn is_named_punctuation(c: char) -> bool {
    c == '.' || c == ',' || c == '/' || c == '\\' || c == ';' || c == '\'' || c == '[' || c == ']' || c == '-' || c == '=' || c == '`'
}

/// Single characters the key-name table holds: upper-case letters, digits and
/// the punctuation keys; each stands for its own character code.
pub open spec fn is_single_key_name(c: char) -> bool {
    text::is_ascii_upper(c) || text::is_digit(c) || is_named_punctuation(c)
}

/// Multi-character key names (upper case) and their codes: arrows are
/// `0x100..=0x103`, Escape/Tab/Backspace/Enter `0x200..=0x203`, the modifier
/// keys Shift/Ctrl/Alt `0x204..=0x206`, and Space is `' '`.
pub open spec fn named_key_code(name: Seq<char>) -> Option<u32> {
    if name == seq!['A', 'R', 'R', 'O', 'W', 'U', 'P'] || name == seq!['U', 'P'] {
        Some(0x100)
    } else if name == seq!['A', 'R', 'R', 'O', 'W', 'D', 'O', 'W', 'N'] || name == seq!['D', 'O', 'W', 'N'] {
        Some(0x101)
    } else if name == seq!['A', 'R', 'R', 'O', 'W', 'L', 'E', 'F', 'T'] || name == seq!['L', 'E', 'F', 'T'] {
        Some(0x102)
    } else if name == seq!['A', 'R', 'R', 'O', 'W', 'R', 'I', 'G', 'H', 'T'] || name == seq!['R', 'I', 'G', 'H', 'T'] {
        Some(0x103)
    } else if name == seq!['E', 'S', 'C', 'A', 'P', 'E'] || name == seq!['E', 'S', 'C'] {
        Some(0x200)
    } else if name == seq!['T', 'A', 'B'] {
        Some(0x201)
    } else if name == seq!['B', 'A', 'C', 'K', 'S', 'P', 'A', 'C', 'E'] {
        Some(0x202)
    } else if name == seq!['E', 'N', 'T', 'E', 'R'] || name == seq!['R', 'E', 'T', 'U', 'R', 'N'] {
        Some(0x203)
    } else if name == seq!['S', 'P', 'A', 'C', 'E'] || name == seq!['S', 'P', 'A', 'C', 'E', 'B', 'A', 'R'] {
        Some(0x20)
    } else if name == seq!['S', 'H', 'I', 'F', 'T'] {
        Some(0x204)
    } else if name == seq!['C', 'T', 'R', 'L'] || name == seq!['C', 'O', 'N', 'T', 'R', 'O', 'L'] {
        Some(0x205)
    } else if name == seq!['A', 'L', 'T'] {
        Some(0x206)
    } else {
        None
    }
}

/// The key-name table, looked up with an upper-case name.
pub open spec fn key_table(name: Seq<char>) -> Option<u32> {
    if name.len() == 1 && is_single_key_name(name[0]) {
        Some(name[0] as u32)
    } else {
        named_key_code(name)
    }
}

/// The key a name stands for, if any: the table entry for the upper-cased
/// name; else, for a single ASCII character, that character upper-cased;
/// else the name read as a decimal number; else none.
pub open spec fn key_name_lookup(name: Seq<char>) -> Option<u32> {
    match key_table(text::ascii_upper_seq(name)) {
        Some(code) => Some(code),
        None => if name.len() == 1 && (name[0] as u32) < 0x80 {
            Some(text::ascii_upper(name[0]) as u32)
        } else {
            text::decimal_u32(name)
        },
    }
}

/// Names that differ only in ASCII case stand for the same key.
pub proof fn lemma_key_lookup_same_case(a: Seq<char>, b: Seq<char>)
    requires
        text::same_up_to_case(a, b),
    ensures
        key_name_lookup(a) == key_name_lookup(b),
{
    text::lemma_same_case_folds(a, b);
    text::lemma_decimal_same_case(a, b);
    if a.len() == 1 {
        text::lemma_same_char_up_to_case(a[0], b[0]);
    }
}

/// What `parse_key_name` returns: the key the name stands for, else the
/// fallback.
pub open spec fn key_name_code(name: Seq<char>, fallback: u32) -> u32 {
    match key_name_lookup(name) {
        Some(code) => code,
        None => fallback,
    }
}

/// Key names are read without regard to ASCII case: a name, its upper-cased
/// form and its lower-cased form give the same key code.
pub proof fn lemma_key_name_ignores_case(name: Seq<char>, fallback: u32)
    ensures
        key_name_code(text::ascii_upper_seq(name), fallback) == key_name_code(name, fallback),
        key_name_code(text::ascii_lower_seq(name), fallback) == key_name_code(name, fallback),
{
    text::lemma_case_forms(name);
    lemma_key_lookup_same_case(name, text::ascii_upper_seq(name));
    lemma_key_lookup_same_case(name, text::ascii_lower_seq(name));
}

/// Looks a name up in the multi-character part of the table.
fn lookup_named_key(up: &Vec<char>) -> (r: Option<u32>)
    ensures
        r == named_key_code(up@),
{
    if chars_eq(up, &['A', 'R', 'R', 'O', 'W', 'U', 'P']) || chars_eq(up, &['U', 'P']) {
        return Some(0x100);
    }
    if chars_eq(up, &['A', 'R', 'R', 'O', 'W', 'D', 'O', 'W', 'N']) || chars_eq(up, &['D', 'O', 'W', 'N']) {
        return Some(0x101);
    }
    if chars_eq(up, &['A', 'R', 'R', 'O', 'W', 'L', 'E', 'F', 'T']) || chars_eq(up, &['L', 'E', 'F', 'T']) {
        return Some(0x102);
    }
    if chars_eq(up, &['A', 'R', 'R', 'O', 'W', 'R', 'I', 'G', 'H', 'T']) || chars_eq(up, &['R', 'I', 'G', 'H', 'T']) {
        return Some(0x103);
    }
    if chars_eq(up, &['E', 'S', 'C', 'A', 'P', 'E']) || chars_eq(up, &['E', 'S', 'C']) {
        return Some(0x200);
    }
    if chars_eq(up, &['T', 'A', 'B']) {
        return Some(0x201);
    }
    if chars_eq(up, &['B', 'A', 'C', 'K', 'S', 'P', 'A', 'C', 'E']) {
        return Some(0x202);
    }
    if chars_eq(up, &['E', 'N', 'T', 'E', 'R']) || chars_eq(up, &['R', 'E', 'T', 'U', 'R', 'N']) {
        return Some(0x203);
    }
    if chars_eq(up, &['S', 'P', 'A', 'C', 'E']) || chars_eq(up, &['S', 'P', 'A', 'C', 'E', 'B', 'A', 'R']) {
        return Some(0x20);
    }
    if chars_eq(up, &['S', 'H', 'I', 'F', 'T']) {
        return Some(0x204);
    }
    if chars_eq(up, &['C', 'T', 'R', 'L']) || chars_eq(up, &['C', 'O', 'N', 'T', 'R', 'O', 'L']) {
        return Some(0x205);
    }
    if chars_eq(up, &['A', 'L', 'T']) {
        return Some(0x206);
    }
    None
}

/// Looks an upper-case name up in the key-name table.
fn lookup_key_table(up: &Vec<char>) -> (r: Option<u32>)
    ensures
        r == key_table(up@),
{
    if up.len() == 1 {
        let c = up[0];
        let u = c as u32;
        if (65 <= u && u <= 90) || (48 <= u && u <= 57) || c == '.' || c == ',' || c == '/' || c
            == '\\' || c == ';' || c == '\'' || c == '[' || c == ']' || c == '-' || c == '=' || c
            == '`' {
            return Some(u);
        }
    }
    lookup_named_key(up)
}

/// Parse a key name (such as `ArrowUp`, `W` or `Escape`) into a key code,
/// returning `fallback` when the name is not understood.
pub fn parse_key_name(key_part: &str, fallback: u32) -> (code: u32)
    ensures
        code == key_name_code(key_part@, fallback),
{
    let chars = str_chars(key_part);
    parse_key_name_chars(&chars, fallback)
}

/// `parse_key_name` on a character vector.
pub fn parse_key_name_chars(chars: &Vec<char>, fallback: u32) -> (code: u32)
    ensures
        code == key_name_code(chars@, fallback),
{
    match lookup_key_name_chars(chars) {
        Some(code) => code,
        None => fallback,
    }
}

/// The key a name stands for, if any (see `key_name_lookup`).
pub fn lookup_key_name_chars(chars: &Vec<char>) -> (r: Option<u32>)
    ensures
        r == key_name_lookup(chars@),
{
    let up = upper_chars(chars);
    if let Some(code) = lookup_key_table(&up) {
        return Some(code);
    }
    if chars.len() == 1 && (chars[0] as u32) < 0x80 {
        return Some(upper_char(chars[0]) as u32);
    }
    parse_u32_chars(chars)
}

} // verus!
