//! Reading and writing human-readable binding strings such as `Ctrl+W`,
//! `ArrowUp`, `Shift` (a modifier on its own) and `Unbound`.

use super::key_names;
use super::key_names::lookup_key_name_chars;
use super::Binding;
use crate::text;
use crate::text::{
    char_lists, chars_eq, lower_chars, push_char, split_on_char, str_chars, trim_chars,
    upper_char, upper_chars,
};
use vstd::prelude::*;

verus! {

// ---------------------------------------------------------------------------
// Words of the binding syntax
// ---------------------------------------------------------------------------

/// `CTRL`, the upper-case form of a Ctrl modifier name.
pub open spec fn ctrl_upper() -> Seq<char> {
    seq!['C', 'T', 'R', 'L']
}

/// `CONTROL`, the long upper-case form of a Ctrl modifier name.
pub open spec fn control_upper() -> Seq<char> {
    seq!['C', 'O', 'N', 'T', 'R', 'O', 'L']
}

/// `SHIFT`, the upper-case Shift modifier name.
pub open spec fn shift_upper() -> Seq<char> {
    seq!['S', 'H', 'I', 'F', 'T']
}

/// `ALT`, the upper-case Alt modifier name.
pub open spec fn alt_upper() -> Seq<char> {
    seq!['A', 'L', 'T']
}

/// `unbound`, the word for "no binding" (compared without regard to case).
pub open spec fn unbound_word() -> Seq<char> {
    seq!['u', 'n', 'b', 'o', 'u', 'n', 'd']
}

/// Which modifier a part of a binding string names: 1 for Ctrl, 2 for Shift,
/// 4 for Alt, 0 for none (names are compared without regard to ASCII case).
pub open spec fn modifier_bit(part: Seq<char>) -> u8 {
    let u = text::ascii_upper_seq(part);
    if u == ctrl_upper() || u == control_upper() {
        1
    } else if u == shift_upper() {
        2
    } else if u == alt_upper() {
        4
    } else {
        0
    }
}

/// Scans the `+`-separated parts of a binding string: whether any part names
/// Ctrl, Shift, Alt, and the last part (trimmed) that names no modifier (empty
/// when every part names one).
pub open spec fn scan_parts(parts: Seq<Seq<char>>) -> (bool, bool, bool, Seq<char>)
    decreases parts.len(),
{
    if parts.len() == 0 {
        (false, false, false, Seq::<char>::empty())
    } else {
        let (c, s, a, key) = scan_parts(parts.drop_last());
        let p = text::trim(parts.last());
        let bit = modifier_bit(p);
        if bit == 1 {
            (true, s, a, key)
        } else if bit == 2 {
            (c, true, a, key)
        } else if bit == 4 {
            (c, s, true, key)
        } else {
            (c, s, a, p)
        }
    }
}

/// The modifier bits for the given Ctrl, Shift and Alt flags.
pub open spec fn mods_from_flags(ctrl: bool, shift: bool, alt: bool) -> u8 {
    ((if ctrl {
        1u8
    } else {
        0u8
    }) + (if shift {
        2u8
    } else {
        0u8
    }) + (if alt {
        4u8
    } else {
        0u8
    })) as u8
}

/// What `parse_binding` returns for the text `s`: the fallback for blank
/// text; no binding for `unbound`; otherwise the modifiers named by the
/// `+`-separated parts and the key named by the last other part.  A string of
/// modifiers alone gives a modifier-only binding; a string with neither a key
/// nor a modifier, or whose key part names no key, gives the fallback.
pub open spec fn parse_binding_text(s: Seq<char>, fallback: Binding) -> Binding {
    let t = text::trim(s);
    if t.len() == 0 {
        fallback
    } else if text::eq_ignore_ascii_case(t, unbound_word()) {
        Binding { code: 0, mods: 0 }
    } else {
        let (c, sh, a, key) = scan_parts(text::split_on(t, '+'));
        let mods = mods_from_flags(c, sh, a);
        if key.len() == 0 {
            if mods != 0 {
                Binding { code: 0, mods }
            } else {
                fallback
            }
        } else {
            match key_names::key_name_lookup(key) {
                Some(code) => Binding { code, mods },
                None => fallback,
            }
        }
    }
}

// ---------------------------------------------------------------------------
// Labels of bindings
// ---------------------------------------------------------------------------

/// `Ctrl`.
pub open spec fn ctrl_label() -> Seq<char> {
    seq!['C', 't', 'r', 'l']
}

/// `Shift`.
pub open spec fn shift_label() -> Seq<char> {
    seq!['S', 'h', 'i', 'f', 't']
}

/// `Alt`.
pub open spec fn alt_label() -> Seq<char> {
    seq!['A', 'l', 't']
}

/// `Unbound`.
pub open spec fn unbound_label() -> Seq<char> {
    seq!['U', 'n', 'b', 'o', 'u', 'n', 'd']
}

/// `Spacebar`.
pub open spec fn spacebar_label() -> Seq<char> {
    seq!['S', 'p', 'a', 'c', 'e', 'b', 'a', 'r']
}

/// `Unknown`.
pub open spec fn unknown_label() -> Seq<char> {
    seq!['U', 'n', 'k', 'n', 'o', 'w', 'n']
}

/// Names of the special (non-character) key codes.
pub open spec fn special_key_label(code: u32) -> Option<Seq<char>> {
    if code == 0x100 {
        Some(seq!['A', 'r', 'r', 'o', 'w', 'U', 'p'])
    } else if code == 0x101 {
        Some(seq!['A', 'r', 'r', 'o', 'w', 'D', 'o', 'w', 'n'])
    } else if code == 0x102 {
        Some(seq!['A', 'r', 'r', 'o', 'w', 'L', 'e', 'f', 't'])
    } else if code == 0x103 {
        Some(seq!['A', 'r', 'r', 'o', 'w', 'R', 'i', 'g', 'h', 't'])
    } else if code == 0x200 {
        Some(seq!['E', 's', 'c', 'a', 'p', 'e'])
    } else if code == 0x201 {
        Some(seq!['T', 'a', 'b'])
    } else if code == 0x202 {
        Some(seq!['B', 'a', 'c', 'k', 's', 'p', 'a', 'c', 'e'])
    } else if code == 0x203 {
        Some(seq!['E', 'n', 't', 'e', 'r'])
    } else if code == 0x204 {
        Some(shift_label())
    } else if code == 0x205 {
        Some(ctrl_label())
    } else if code == 0x206 {
        Some(alt_label())
    } else {
        None
    }
}

/// A printable ASCII character other than space (`char::is_ascii_graphic`).
pub open spec fn is_graphic_code(code: u32) -> bool {
    0x21 <= code <= 0x7E
}

/// How `binding_to_string` names a key code: `Spacebar` for space, the
/// upper-cased character for printable ASCII, the special-key name, or
/// `Unknown`.
pub open spec fn key_text(code: u32) -> Seq<char> {
    if code == 0x20 {
        spacebar_label()
    } else if is_graphic_code(code) {
        seq![text::ascii_upper((code as u8) as char)]
    } else {
        match special_key_label(code) {
            Some(l) => l,
            None => unknown_label(),
        }
    }
}

/// How `binding_label` names a key code: the special-key name first, then
/// `Spacebar`, then the upper-cased printable character, else `Unknown`.
pub open spec fn key_label_text(code: u32) -> Seq<char> {
    match special_key_label(code) {
        Some(l) => l,
        None => if code == 0x20 {
            spacebar_label()
        } else if is_graphic_code(code) {
            seq![text::ascii_upper((code as u8) as char)]
        } else {
            unknown_label()
        },
    }
}

/// The names of the modifiers set in `mods`, in the order Ctrl, Shift, Alt.
pub open spec fn modifier_names(mods: u8) -> Seq<Seq<char>> {
    (if mods & 1 != 0 {
        seq![ctrl_label()]
    } else {
        seq![]
    }) + (if mods & 2 != 0 {
        seq![shift_label()]
    } else {
        seq![]
    }) + (if mods & 4 != 0 {
        seq![alt_label()]
    } else {
        seq![]
    })
}

/// Joins names with `+` between them.
pub open spec fn join_plus(names: Seq<Seq<char>>) -> Seq<char>
    decreases names.len(),
{
    if names.len() == 0 {
        Seq::<char>::empty()
    } else if names.len() == 1 {
        names[0]
    } else {
        names[0] + seq!['+'] + join_plus(names.drop_first())
    }
}

/// A binding written as text with the given key name: `Unbound` for no
/// binding, the modifier names alone when there is no key code, else the
/// modifier names and the key name joined by `+`.
pub open spec fn binding_text_with(b: Binding, key: Seq<char>) -> Seq<char> {
    if b.code == 0 && b.mods == 0 {
        unbound_label()
    } else if b.code == 0 {
        join_plus(modifier_names(b.mods))
    } else {
        join_plus(modifier_names(b.mods).push(key))
    }
}

/// What `binding_to_string` returns.
pub open spec fn binding_text(b: Binding) -> Seq<char> {
    binding_text_with(b, key_text(b.code))
}

/// What `binding_label` returns.
pub open spec fn binding_label_text(b: Binding) -> Seq<char> {
    binding_text_with(b, key_label_text(b.code))
}

// ---------------------------------------------------------------------------
// Parsing
// ---------------------------------------------------------------------------

/// Which modifier a trimmed part names (see `modifier_bit`).
fn part_modifier_bit(p: &Vec<char>) -> (bit: u8)
    ensures
        bit == modifier_bit(p@),
{
    let u = upper_chars(p);
    if chars_eq(&u, &['C', 'T', 'R', 'L']) || chars_eq(&u, &['C', 'O', 'N', 'T', 'R', 'O', 'L']) {
        1
    } else if chars_eq(&u, &['S', 'H', 'I', 'F', 'T']) {
        2
    } else if chars_eq(&u, &['A', 'L', 'T']) {
        4
    } else {
        0
    }
}

/// Parse a human-readable binding string into a Binding, returning
/// `fallback` when the text is blank, names neither a key nor a modifier, or
/// has a key part that names no key.
pub fn parse_binding(s: &str, fallback: Binding) -> (b: Binding)
    ensures
        b == parse_binding_text(s@, fallback),
{
    let chars = str_chars(s);
    parse_binding_chars(&chars, fallback)
}

/// `parse_binding` on a character vector.
pub fn parse_binding_chars(chars: &Vec<char>, fallback: Binding) -> (b: Binding)
    ensures
        b == parse_binding_text(chars@, fallback),
{
    let t = trim_chars(chars);
    if t.len() == 0 {
        return fallback;
    }
    let lowered = lower_chars(&t);
    if chars_eq(&lowered, &['u', 'n', 'b', 'o', 'u', 'n', 'd']) {
        assert(text::ascii_lower_seq(unbound_word()) =~= unbound_word());
        return Binding::new(0, 0);
    }
    proof {
        assert(text::ascii_lower_seq(unbound_word()) =~= unbound_word());
    }
    let parts = split_on_char(&t, '+');
    let mut ctrl = false;
    let mut shift = false;
    let mut alt = false;
    let mut key: Vec<char> = Vec::new();
    let mut i: usize = 0;
    assert(char_lists(parts@).take(0) =~= Seq::<Seq<char>>::empty());
    while i < parts.len()
        invariant
            i <= parts.len(),
            (ctrl, shift, alt, key@) == scan_parts(char_lists(parts@).take(i as int)),
        decreases parts.len() - i,
    {
        let p = trim_chars(&parts[i]);
        let bit = part_modifier_bit(&p);
        assert(char_lists(parts@).take(i + 1).drop_last() =~= char_lists(parts@).take(i as int));
        assert(char_lists(parts@).take(i + 1).last() == parts@[i as int]@);
        if bit == 1 {
            ctrl = true;
        } else if bit == 2 {
            shift = true;
        } else if bit == 4 {
            alt = true;
        } else {
            key = p;
        }
        i = i + 1;
    }
    assert(char_lists(parts@).take(parts.len() as int) =~= char_lists(parts@));
    let mods: u8 = (if ctrl {
        1u8
    } else {
        0u8
    }) + (if shift {
        2u8
    } else {
        0u8
    }) + (if alt {
        4u8
    } else {
        0u8
    });
    if key.len() == 0 {
        if mods != 0 {
            return Binding::new(0, mods);
        }
        return fallback;
    }
    match lookup_key_name_chars(&key) {
        Some(code) => Binding::new(code, mods),
        None => fallback,
    }
}

// ---------------------------------------------------------------------------
// Writing
// ---------------------------------------------------------------------------

/// Appends the characters of a slice to a string.
fn push_chars(s: &mut String, cs: &[char])
    ensures
        final(s)@ == old(s)@ + cs@,
{
    let mut i: usize = 0;
    while i < cs.len()
        invariant
            i <= cs.len(),
            s@ == old(s)@ + cs@.take(i as int),
        decreases cs.len() - i,
    {
        push_char(s, cs[i]);
        i = i + 1;
        assert(old(s)@ + cs@.take(i as int) =~= old(s)@ + cs@.take(i - 1) + seq![cs@[i - 1]]);
    }
    assert(cs@.take(cs.len() as int) =~= cs@);
}

/// Writes the special-key name of `code`, if it has one.
fn push_special_key_label(s: &mut String, code: u32) -> (found: bool)
    ensures
        found == (special_key_label(code) is Some),
        found ==> final(s)@ == old(s)@ + special_key_label(code)->0,
        !found ==> final(s)@ == old(s)@,
{
    if code == 0x100 {
        push_chars(s, &['A', 'r', 'r', 'o', 'w', 'U', 'p']);
    } else if code == 0x101 {
        push_chars(s, &['A', 'r', 'r', 'o', 'w', 'D', 'o', 'w', 'n']);
    } else if code == 0x102 {
        push_chars(s, &['A', 'r', 'r', 'o', 'w', 'L', 'e', 'f', 't']);
    } else if code == 0x103 {
        push_chars(s, &['A', 'r', 'r', 'o', 'w', 'R', 'i', 'g', 'h', 't']);
    } else if code == 0x200 {
        push_chars(s, &['E', 's', 'c', 'a', 'p', 'e']);
    } else if code == 0x201 {
        push_chars(s, &['T', 'a', 'b']);
    } else if code == 0x202 {
        push_chars(s, &['B', 'a', 'c', 'k', 's', 'p', 'a', 'c', 'e']);
    } else if code == 0x203 {
        push_chars(s, &['E', 'n', 't', 'e', 'r']);
    } else if code == 0x204 {
        push_chars(s, &['S', 'h', 'i', 'f', 't']);
    } else if code == 0x205 {
        push_chars(s, &['C', 't', 'r', 'l']);
    } else if code == 0x206 {
        push_chars(s, &['A', 'l', 't']);
    } else {
        return false;
    }
    true
}

/// Appends `key_text(code)`.
fn push_key_text(s: &mut String, code: u32)
    ensures
        final(s)@ == old(s)@ + key_text(code),
{
    if code == 0x20 {
        push_chars(s, &['S', 'p', 'a', 'c', 'e', 'b', 'a', 'r']);
    } else if 0x21 <= code && code <= 0x7E {
        let c = upper_char((code as u8) as char);
        push_char(s, c);
        assert(s@ =~= old(s)@ + key_text(code));
    } else if !push_special_key_label(s, code) {
        push_chars(s, &['U', 'n', 'k', 'n', 'o', 'w', 'n']);
    }
}

/// Appends `key_label_text(code)`.
fn push_key_label_text(s: &mut String, code: u32)
    ensures
        final(s)@ == old(s)@ + key_label_text(code),
{
    if push_special_key_label(s, code) {
    } else if code == 0x20 {
        push_chars(s, &['S', 'p', 'a', 'c', 'e', 'b', 'a', 'r']);
    } else if 0x21 <= code && code <= 0x7E {
        let c = upper_char((code as u8) as char);
        push_char(s, c);
        assert(s@ =~= old(s)@ + key_label_text(code));
    } else {
        push_chars(s, &['U', 'n', 'k', 'n', 'o', 'w', 'n']);
    }
}

/// `join_plus` of a non-empty list is the first name, `+`, and the rest.
proof fn lemma_join_plus_cons(first: Seq<char>, rest: Seq<Seq<char>>)
    ensures
        rest.len() == 0 ==> join_plus(seq![first] + rest) == first,
        rest.len() > 0 ==> join_plus(seq![first] + rest) == first + seq!['+'] + join_plus(rest),
{
    assert((seq![first] + rest).drop_first() =~= rest);
    assert((seq![first] + rest)[0] == first);
}

/// The text of a binding with a key code, given the key name.
proof fn lemma_text_with_key(mods: u8, key: Seq<char>)
    ensures
        join_plus(modifier_names(mods).push(key)) == (if mods & 1 != 0 {
            ctrl_label() + seq!['+']
        } else {
            seq![]
        }) + (if mods & 2 != 0 {
            shift_label() + seq!['+']
        } else {
            seq![]
        }) + (if mods & 4 != 0 {
            alt_label() + seq!['+']
        } else {
            seq![]
        }) + key,
{
    let a = if mods & 4 != 0 {
        seq![alt_label()]
    } else {
        seq![]
    };
    let sh = if mods & 2 != 0 {
        seq![shift_label()]
    } else {
        seq![]
    };
    let c = if mods & 1 != 0 {
        seq![ctrl_label()]
    } else {
        seq![]
    };
    assert(modifier_names(mods).push(key) =~= c + (sh + (a + seq![key])));
    // innermost: Alt then key
    assert(join_plus(seq![key]) == key) by {
        lemma_join_plus_cons(key, seq![]);
        assert(seq![key] + Seq::<Seq<char>>::empty() =~= seq![key]);
    }
    let l1 = a + seq![key];
    if mods & 4 != 0 {
        lemma_join_plus_cons(alt_label(), seq![key]);
        assert(l1 =~= seq![alt_label()] + seq![key]);
    } else {
        assert(l1 =~= seq![key]);
    }
    let l2 = sh + l1;
    if mods & 2 != 0 {
        lemma_join_plus_cons(shift_label(), l1);
        assert(l2 =~= seq![shift_label()] + l1);
    } else {
        assert(l2 =~= l1);
    }
    let l3 = c + l2;
    if mods & 1 != 0 {
        lemma_join_plus_cons(ctrl_label(), l2);
        assert(l3 =~= seq![ctrl_label()] + l2);
    } else {
        assert(l3 =~= l2);
    }
    let p4 = if mods & 4 != 0 {
        alt_label() + seq!['+']
    } else {
        seq![]
    };
    let p2 = if mods & 2 != 0 {
        shift_label() + seq!['+']
    } else {
        seq![]
    };
    let p1 = if mods & 1 != 0 {
        ctrl_label() + seq!['+']
    } else {
        seq![]
    };
    assert(join_plus(l1) =~= p4 + key);
    assert(join_plus(l2) =~= p2 + (p4 + key));
    assert(join_plus(l3) =~= p1 + (p2 + (p4 + key)));
    assert(p1 + (p2 + (p4 + key)) =~= p1 + p2 + p4 + key);
}

/// The text of a modifier-only binding.
proof fn lemma_text_modifiers_only(mods: u8)
    ensures
        join_plus(modifier_names(mods)) == {
            let parts = (if mods & 1 != 0 {
                ctrl_label() + seq!['+']
            } else {
                seq![]
            }) + (if mods & 2 != 0 {
                shift_label() + seq!['+']
            } else {
                seq![]
            }) + (if mods & 4 != 0 {
                alt_label() + seq!['+']
            } else {
                seq![]
            });
            if parts.len() == 0 {
                parts
            } else {
                parts.drop_last()
            }
        },
{
    let a = if mods & 4 != 0 {
        seq![alt_label()]
    } else {
        seq![]
    };
    let sh = if mods & 2 != 0 {
        seq![shift_label()]
    } else {
        seq![]
    };
    let c = if mods & 1 != 0 {
        seq![ctrl_label()]
    } else {
        seq![]
    };
    assert(modifier_names(mods) =~= c + (sh + a));
    let p4 = if mods & 4 != 0 {
        alt_label() + seq!['+']
    } else {
        seq![]
    };
    let p2 = if mods & 2 != 0 {
        shift_label() + seq!['+']
    } else {
        seq![]
    };
    let p1 = if mods & 1 != 0 {
        ctrl_label() + seq!['+']
    } else {
        seq![]
    };
    let parts = p1 + p2 + p4;
    let l2 = sh + a;
    if mods & 4 != 0 {
        assert(join_plus(a) =~= alt_label()) by {
            lemma_join_plus_cons(alt_label(), seq![]);
            assert(seq![alt_label()] + Seq::<Seq<char>>::empty() =~= a);
        }
    } else {
        assert(join_plus(a) =~= Seq::<char>::empty());
    }
    if mods & 2 != 0 {
        lemma_join_plus_cons(shift_label(), a);
        assert(l2 =~= seq![shift_label()] + a);
    } else {
        assert(l2 =~= a);
    }
    let l3 = c + l2;
    if mods & 1 != 0 {
        lemma_join_plus_cons(ctrl_label(), l2);
        assert(l3 =~= seq![ctrl_label()] + l2);
    } else {
        assert(l3 =~= l2);
    }
    if parts.len() == 0 {
        assert(join_plus(l3) =~= parts);
    } else {
        assert(join_plus(l3) =~= parts.drop_last());
    }
}

/// Appends the `+`-terminated names of the modifiers set in `mods`.
fn push_modifier_prefix(s: &mut String, mods: u8)
    ensures
        final(s)@ == old(s)@ + (if mods & 1 != 0 {
            ctrl_label() + seq!['+']
        } else {
            seq![]
        }) + (if mods & 2 != 0 {
            shift_label() + seq!['+']
        } else {
            seq![]
        }) + (if mods & 4 != 0 {
            alt_label() + seq!['+']
        } else {
            seq![]
        }),
{
    let ghost s0 = s@;
    if mods & 1 != 0 {
        push_chars(s, &['C', 't', 'r', 'l', '+']);
        assert(seq!['C', 't', 'r', 'l', '+'] =~= ctrl_label() + seq!['+']);
    }
    let ghost s1 = s@;
    if mods & 2 != 0 {
        push_chars(s, &['S', 'h', 'i', 'f', 't', '+']);
        assert(seq!['S', 'h', 'i', 'f', 't', '+'] =~= shift_label() + seq!['+']);
    }
    let ghost s2 = s@;
    if mods & 4 != 0 {
        push_chars(s, &['A', 'l', 't', '+']);
        assert(seq!['A', 'l', 't', '+'] =~= alt_label() + seq!['+']);
    }
    assert(s@ =~= s0 + (s1.skip(s0.len() as int)) + (s2.skip(s1.len() as int)) + (s@.skip(
        s2.len() as int,
    )));
}

/// Removes the last character of a string (`String::pop`).
#[verifier::external_body]
fn pop_char(s: &mut String) -> (c: Option<char>)
    ensures
        old(s)@.len() == 0 ==> c is None && final(s)@ == old(s)@,
        old(s)@.len() > 0 ==> c == Some(old(s)@.last()) && final(s)@ == old(s)@.drop_last(),
{
    s.pop()
}

/// Convert a Binding to a human-readable string for the preferences file,
/// such as `Ctrl+W`, `ArrowUp`, `Shift` or `Unbound`.
pub fn binding_to_string(binding: &Binding) -> (s: String)
    ensures
        s@ == binding_text(*binding),
{
    let mut s = String::new();
    if binding.code == 0 && binding.mods == 0 {
        push_chars(&mut s, &['U', 'n', 'b', 'o', 'u', 'n', 'd']);
        return s;
    }
    push_modifier_prefix(&mut s, binding.mods);
    if binding.code == 0 {
        // only modifiers: drop the trailing `+`
        let _ = pop_char(&mut s);
        proof {
            lemma_text_modifiers_only(binding.mods);
        }
        return s;
    }
    push_key_text(&mut s, binding.code);
    proof {
        lemma_text_with_key(binding.mods, key_text(binding.code));
    }
    s
}

/// Format a binding as a human-readable label for the settings screen
/// (e.g. `Ctrl+W`, `Shift`, `Unbound`).
pub fn binding_label(b: &Binding) -> (s: String)
    ensures
        s@ == binding_label_text(*b),
{
    let mut s = String::new();
    if b.code == 0 && b.mods == 0 {
        push_chars(&mut s, &['U', 'n', 'b', 'o', 'u', 'n', 'd']);
        return s;
    }
    push_modifier_prefix(&mut s, b.mods);
    if b.code == 0 {
        let _ = pop_char(&mut s);
        proof {
            lemma_text_modifiers_only(b.mods);
        }
        return s;
    }
    push_key_label_text(&mut s, b.code);
    proof {
        lemma_text_with_key(b.mods, key_label_text(b.code));
    }
    s
}

// ---------------------------------------------------------------------------
// Laws
// ---------------------------------------------------------------------------

/// The settings-screen label of a binding is the text the preferences file
/// stores for it: `binding_label` and `binding_to_string` agree on every
/// binding.
pub proof fn lemma_label_matches_saved_text(b: Binding)
    ensures
        binding_label_text(b) == binding_text(b),
{
    assert(key_label_text(b.code) == key_text(b.code));
}

/// `split_on` of a text without the separator is that text alone.
proof fn lemma_split_on_without_sep(x: Seq<char>, sep: char)
    requires
        !x.contains(sep),
    ensures
        text::split_on(x, sep) == seq![x],
    decreases x.len(),
{
    if x.len() > 0 {
        assert(!x.drop_first().contains(sep)) by {
            if x.drop_first().contains(sep) {
                let k = choose|k: int| 0 <= k < x.drop_first().len() && x.drop_first()[k] == sep;
                assert(x[k + 1] == sep);
            }
        }
        lemma_split_on_without_sep(x.drop_first(), sep);
        assert(x[0] != sep);
        assert(seq![x[0]] + x.drop_first() =~= x);
        assert(text::split_on(x, sep) =~= seq![x]);
    } else {
        assert(x =~= Seq::<char>::empty());
    }
}

/// Splitting at a separator between two texts splits each of them.
proof fn lemma_split_on_concat(x: Seq<char>, y: Seq<char>, sep: char)
    ensures
        text::split_on(x + seq![sep] + y, sep) == text::split_on(x, sep) + text::split_on(y, sep),
    decreases x.len(),
{
    let whole = x + seq![sep] + y;
    if x.len() == 0 {
        assert(whole =~= seq![sep] + y);
        assert(whole.drop_first() =~= y);
        assert(whole[0] == sep);
        assert(text::split_on(x, sep) =~= seq![Seq::<char>::empty()]);
    } else {
        lemma_split_on_concat(x.drop_first(), y, sep);
        assert(whole.drop_first() =~= x.drop_first() + seq![sep] + y);
        assert(whole[0] == x[0]);
        text::lemma_split_on_nonempty(x.drop_first(), sep);
        let a = text::split_on(x.drop_first(), sep);
        let b = text::split_on(y, sep);
        if x[0] == sep {
            assert(text::split_on(whole, sep) =~= text::split_on(x, sep) + b);
        } else {
            assert((a + b).update(0, seq![x[0]] + (a + b)[0]) =~= a.update(0, seq![x[0]] + a[0])
                + b);
        }
    }
}

/// No name in the list contains `+`.
pub open spec fn plus_free(names: Seq<Seq<char>>) -> bool {
    forall|i: int| 0 <= i < names.len() ==> !(#[trigger] names[i]).contains('+')
}

/// Splitting `+`-joined names at `+` gives the names back.
proof fn lemma_split_join_plus(names: Seq<Seq<char>>)
    requires
        names.len() >= 1,
        plus_free(names),
    ensures
        text::split_on(join_plus(names), '+') == names,
    decreases names.len(),
{
    let first = names[0];
    assert(!first.contains('+'));
    lemma_split_on_without_sep(first, '+');
    if names.len() == 1 {
        assert(names =~= seq![first]);
    } else {
        let rest = names.drop_first();
        assert(plus_free(rest)) by {
            assert forall|i: int| 0 <= i < rest.len() implies !(#[trigger] rest[i]).contains(
                '+',
            ) by {
                assert(rest[i] == names[i + 1]);
            }
        }
        lemma_split_join_plus(rest);
        lemma_split_on_concat(first, join_plus(rest), '+');
        assert(names =~= seq![first] + rest);
    }
}

/// A key code whose text reads back as the same code.
pub open spec fn round_trip_code(code: u32) -> bool {
    ||| code == 0
    ||| code == 0x20
    ||| (is_graphic_code(code) && !text::is_ascii_lower((code as u8) as char) && code != '+' as u32)
    ||| 0x100 <= code <= 0x103
    ||| 0x200 <= code <= 0x203
}

/// For modifier bits below 8, the flags rebuild the bits.
proof fn lemma_mods_flags(mods: u8)
    requires
        mods < 8,
    ensures
        mods_from_flags(mods & 1 != 0, mods & 2 != 0, mods & 4 != 0) == mods,
{
    let c = mods & 1 != 0;
    let s = mods & 2 != 0;
    let a = mods & 4 != 0;
    assert(mods < 8 ==> mods == (if mods & 1 != 0 { 1u8 } else { 0u8 }) + (if mods & 2 != 0 {
        2u8
    } else {
        0u8
    }) + (if mods & 4 != 0 { 4u8 } else { 0u8 })) by (bit_vector);
}

/// The names a modifier label is recognised by.
proof fn lemma_modifier_label_bits()
    ensures
        modifier_bit(ctrl_label()) == 1,
        modifier_bit(shift_label()) == 2,
        modifier_bit(alt_label()) == 4,
{
    assert(text::ascii_upper_seq(ctrl_label()) =~= ctrl_upper());
    assert(text::ascii_upper_seq(shift_label()) =~= shift_upper());
    assert(text::ascii_upper_seq(alt_label()) =~= alt_upper());
}

/// A text whose first and last characters are not whitespace is its own trim.
proof fn lemma_trim_noop(t: Seq<char>)
    requires
        t.len() > 0,
        !text::is_whitespace(t[0]),
        !text::is_whitespace(t.last()),
    ensures
        text::trim(t) == t,
{
}

/// Scanning one more part.
proof fn lemma_scan_push(parts: Seq<Seq<char>>, p: Seq<char>)
    ensures
        scan_parts(parts.push(p)) == ({
            let (c, s, a, key) = scan_parts(parts);
            let q = text::trim(p);
            let bit = modifier_bit(q);
            if bit == 1 {
                (true, s, a, key)
            } else if bit == 2 {
                (c, true, a, key)
            } else if bit == 4 {
                (c, s, true, key)
            } else {
                (c, s, a, q)
            }
        }),
{
    assert(parts.push(p).drop_last() =~= parts);
    assert(parts.push(p).last() == p);
}

/// Scanning the modifier names of `mods` finds exactly those modifiers and no
/// key.
proof fn lemma_scan_modifier_names(mods: u8)
    ensures
        scan_parts(modifier_names(mods)) == (
            mods & 1 != 0,
            mods & 2 != 0,
            mods & 4 != 0,
            Seq::<char>::empty(),
        ),
{
    lemma_modifier_label_bits();
    lemma_trim_noop(ctrl_label());
    lemma_trim_noop(shift_label());
    lemma_trim_noop(alt_label());
    let e = Seq::<Seq<char>>::empty();
    let l0 = if mods & 1 != 0 {
        e.push(ctrl_label())
    } else {
        e
    };
    lemma_scan_push(e, ctrl_label());
    assert(scan_parts(l0) == (mods & 1 != 0, false, false, Seq::<char>::empty()));
    let l1 = if mods & 2 != 0 {
        l0.push(shift_label())
    } else {
        l0
    };
    lemma_scan_push(l0, shift_label());
    let l2 = if mods & 4 != 0 {
        l1.push(alt_label())
    } else {
        l1
    };
    lemma_scan_push(l1, alt_label());
    assert(modifier_names(mods) =~= l2);
}

/// The key names that `binding_to_string` writes read back as their codes.
proof fn lemma_key_text_reads_back(code: u32)
    requires
        code != 0,
        round_trip_code(code),
    ensures
        key_names::key_name_lookup(key_text(code)) == Some(code),
        key_text(code).len() > 0,
        !text::is_whitespace(key_text(code)[0]),
        !text::is_whitespace(key_text(code).last()),
        !key_text(code).contains('+'),
        modifier_bit(key_text(code)) == 0,
        key_text(code).len() == 7 ==> text::ascii_lower(key_text(code)[0]) != 'u',
{
    let k = key_text(code);
    let u = text::ascii_upper_seq(k);
    if code == 0x20 {
        assert(u =~= seq!['S', 'P', 'A', 'C', 'E', 'B', 'A', 'R']);
    } else if is_graphic_code(code) {
        let c = (code as u8) as char;
        assert(c as u32 == code);
        assert(text::ascii_upper(c) == c);
        assert(k =~= seq![c]);
        assert(u =~= seq![c]);
        assert(!k.contains('+')) by {
            if k.contains('+') {
                assert(k[0] == '+');
            }
        }
    } else if code == 0x100 {
        assert(u =~= seq!['A', 'R', 'R', 'O', 'W', 'U', 'P']);
    } else if code == 0x101 {
        assert(u =~= seq!['A', 'R', 'R', 'O', 'W', 'D', 'O', 'W', 'N']);
    } else if code == 0x102 {
        assert(u =~= seq!['A', 'R', 'R', 'O', 'W', 'L', 'E', 'F', 'T']);
    } else if code == 0x103 {
        assert(u =~= seq!['A', 'R', 'R', 'O', 'W', 'R', 'I', 'G', 'H', 'T']);
    } else if code == 0x200 {
        assert(u =~= seq!['E', 'S', 'C', 'A', 'P', 'E']);
    } else if code == 0x201 {
        assert(u =~= seq!['T', 'A', 'B']);
    } else if code == 0x202 {
        assert(u =~= seq!['B', 'A', 'C', 'K', 'S', 'P', 'A', 'C', 'E']);
    } else {
        assert(u =~= seq!['E', 'N', 'T', 'E', 'R']);
    }
    lemma_trim_noop(k);
}

/// The first and last characters of `+`-joined non-empty names.
proof fn lemma_join_plus_ends(names: Seq<Seq<char>>)
    requires
        names.len() >= 1,
        forall|i: int| 0 <= i < names.len() ==> (#[trigger] names[i]).len() > 0,
    ensures
        join_plus(names).len() > 0,
        join_plus(names)[0] == names[0][0],
        join_plus(names).last() == names.last().last(),
    decreases names.len(),
{
    if names.len() > 1 {
        let rest = names.drop_first();
        assert forall|i: int| 0 <= i < rest.len() implies (#[trigger] rest[i]).len() > 0 by {
            assert(rest[i] == names[i + 1]);
        }
        lemma_join_plus_ends(rest);
        assert(rest.last() == names.last());
    }
}

/// The modifier labels contain no `+` and are not empty.
proof fn lemma_modifier_names_shape(mods: u8)
    ensures
        plus_free(modifier_names(mods)),
        forall|i: int|
            0 <= i < modifier_names(mods).len() ==> (#[trigger] modifier_names(mods)[i]).len() > 0
                && (modifier_names(mods)[i][0] == 'C' || modifier_names(mods)[i][0] == 'S'
                || modifier_names(mods)[i][0] == 'A') && (modifier_names(mods)[i].last() == 'l'
                || modifier_names(mods)[i].last() == 't'),
        mods < 8 && mods != 0 ==> modifier_names(mods).len() > 0,
{
    let n = modifier_names(mods);
    assert forall|i: int| 0 <= i < n.len() implies (#[trigger] n[i]) == ctrl_label() || n[i]
        == shift_label() || n[i] == alt_label() by {}
    assert(!ctrl_label().contains('+')) by {
        if ctrl_label().contains('+') {
            let k = choose|k: int| 0 <= k < ctrl_label().len() && ctrl_label()[k] == '+';
        }
    }
    assert(!shift_label().contains('+')) by {
        if shift_label().contains('+') {
            let k = choose|k: int| 0 <= k < shift_label().len() && shift_label()[k] == '+';
        }
    }
    assert(!alt_label().contains('+')) by {
        if alt_label().contains('+') {
            let k = choose|k: int| 0 <= k < alt_label().len() && alt_label()[k] == '+';
        }
    }
    if mods < 8 && mods != 0 {
        assert(mods < 8 && mods != 0 ==> (mods & 1 != 0 || mods & 2 != 0 || mods & 4 != 0))
            by (bit_vector);
    }
}

/// Writing a binding as text and reading the text back gives the binding,
/// for every binding whose modifier bits are among Ctrl, Shift and Alt and
/// whose key code has a name of its own that reads back (no key, space,
/// printable ASCII other than lower-case letters and `+`, the arrows, Escape,
/// Tab, Backspace and Enter).  Whatever the fallback.
pub proof fn lemma_binding_text_round_trip(b: Binding, fallback: Binding)
    requires
        b.mods < 8,
        round_trip_code(b.code),
    ensures
        parse_binding_text(binding_text(b), fallback) == b,
{
    let t = binding_text(b);
    let names = modifier_names(b.mods);
    lemma_modifier_names_shape(b.mods);
    lemma_mods_flags(b.mods);
    lemma_scan_modifier_names(b.mods);
    if b.code == 0 && b.mods == 0 {
        assert(t == unbound_label());
        lemma_trim_noop(t);
        assert(text::ascii_lower_seq(t) =~= text::ascii_lower_seq(unbound_word()));
    } else if b.code == 0 {
        assert(t == join_plus(names));
        lemma_join_plus_ends(names);
        lemma_trim_noop(t);
        assert(text::ascii_lower(t[0]) != 'u');
        assert(!text::eq_ignore_ascii_case(t, unbound_word())) by {
            if text::eq_ignore_ascii_case(t, unbound_word()) {
                assert(text::ascii_lower_seq(t)[0] == text::ascii_lower_seq(unbound_word())[0]);
            }
        }
        lemma_split_join_plus(names);
    } else {
        let k = key_text(b.code);
        lemma_key_text_reads_back(b.code);
        let all = names.push(k);
        assert(t == join_plus(all));
        assert forall|i: int| 0 <= i < all.len() implies (#[trigger] all[i]).len() > 0 && !all[i].contains('+') by {
            if i < names.len() {
                assert(all[i] == names[i]);
            } else {
                assert(all[i] == k);
            }
        }
        assert(plus_free(all));
        lemma_join_plus_ends(all);
        assert(all.last() == k);
        lemma_text_with_key(b.mods, k);
        if names.len() > 0 {
            assert(all[0] == names[0]);
        } else {
            assert(all[0] == k);
        }
        lemma_trim_noop(t);
        assert(!text::eq_ignore_ascii_case(t, unbound_word())) by {
            if text::eq_ignore_ascii_case(t, unbound_word()) {
                assert(text::ascii_lower_seq(t).len() == t.len());
                assert(text::ascii_lower_seq(t)[0] == text::ascii_lower_seq(unbound_word())[0]);
                if names.len() == 0 {
                    assert(join_plus(all) == k) by {
                        assert(all =~= seq![k]);
                    }
                }
            }
        }
        lemma_split_join_plus(all);
        lemma_scan_push(names, k);
        lemma_trim_noop(k);
    }
}


// ---------------------------------------------------------------------------
// Case does not matter
// ---------------------------------------------------------------------------

/// Parts that differ only in case name the same modifier.
proof fn lemma_modifier_bit_same_case(a: Seq<char>, b: Seq<char>)
    requires
        text::same_up_to_case(a, b),
    ensures
        modifier_bit(a) == modifier_bit(b),
{
    text::lemma_same_case_folds(a, b);
}

/// Scanning part lists that pair up and differ only in case finds the same
/// modifiers and key parts that differ only in case.
proof fn lemma_scan_same_case(p: Seq<Seq<char>>, q: Seq<Seq<char>>)
    requires
        p.len() == q.len(),
        forall|i: int| 0 <= i < p.len() ==> text::same_up_to_case(#[trigger] p[i], q[i]),
    ensures
        scan_parts(p).0 == scan_parts(q).0,
        scan_parts(p).1 == scan_parts(q).1,
        scan_parts(p).2 == scan_parts(q).2,
        text::same_up_to_case(scan_parts(p).3, scan_parts(q).3),
    decreases p.len(),
{
    if p.len() > 0 {
        let p1 = p.drop_last();
        let q1 = q.drop_last();
        assert forall|i: int| 0 <= i < p1.len() implies text::same_up_to_case(
            #[trigger] p1[i],
            q1[i],
        ) by {
            assert(text::same_up_to_case(p[i], q[i]));
        }
        lemma_scan_same_case(p1, q1);
        assert(text::same_up_to_case(p[p.len() - 1], q[p.len() - 1]));
        text::lemma_trim_same_case(p.last(), q.last());
        lemma_modifier_bit_same_case(text::trim(p.last()), text::trim(q.last()));
    }
}

/// Texts that differ only in ASCII case parse to the same binding.
pub proof fn lemma_parse_binding_same_case(a: Seq<char>, b: Seq<char>, fallback: Binding)
    requires
        text::same_up_to_case(a, b),
    ensures
        parse_binding_text(a, fallback) == parse_binding_text(b, fallback),
{
    let ta = text::trim(a);
    let tb = text::trim(b);
    text::lemma_trim_same_case(a, b);
    text::lemma_same_case_folds(ta, tb);
    text::lemma_split_same_case(ta, tb, '+');
    let pa = text::split_on(ta, '+');
    let pb = text::split_on(tb, '+');
    lemma_scan_same_case(pa, pb);
    key_names::lemma_key_lookup_same_case(scan_parts(pa).3, scan_parts(pb).3);
}

/// Binding text is read without regard to ASCII case: a text, its
/// upper-cased form and its lower-cased form parse to the same binding.
pub proof fn lemma_parse_binding_ignores_case(s: Seq<char>, fallback: Binding)
    ensures
        parse_binding_text(text::ascii_upper_seq(s), fallback) == parse_binding_text(s, fallback),
        parse_binding_text(text::ascii_lower_seq(s), fallback) == parse_binding_text(s, fallback),
{
    text::lemma_case_forms(s);
    lemma_parse_binding_same_case(s, text::ascii_upper_seq(s), fallback);
    lemma_parse_binding_same_case(s, text::ascii_lower_seq(s), fallback);
}


// ---------------------------------------------------------------------------
// The two spellings of Ctrl
// ---------------------------------------------------------------------------

/// `Ctrl`, as a part of a binding text.
pub open spec fn ctrl_word() -> Seq<char> {
    seq!['C', 't', 'r', 'l']
}

/// `Control`, the long spelling of Ctrl.
pub open spec fn control_word() -> Seq<char> {
    seq!['C', 'o', 'n', 't', 'r', 'o', 'l']
}

/// Scanning parts whose first parts name the same modifier finds the same.
proof fn lemma_scan_same_first_modifier(a: Seq<char>, b: Seq<char>, rest: Seq<Seq<char>>)
    requires
        modifier_bit(text::trim(a)) == modifier_bit(text::trim(b)),
        modifier_bit(text::trim(a)) != 0,
    ensures
        scan_parts(seq![a] + rest) == scan_parts(seq![b] + rest),
    decreases rest.len(),
{
    if rest.len() == 0 {
        assert(seq![a] + rest =~= Seq::<Seq<char>>::empty().push(a));
        assert(seq![b] + rest =~= Seq::<Seq<char>>::empty().push(b));
        lemma_scan_push(Seq::<Seq<char>>::empty(), a);
        lemma_scan_push(Seq::<Seq<char>>::empty(), b);
    } else {
        lemma_scan_same_first_modifier(a, b, rest.drop_last());
        assert(seq![a] + rest =~= (seq![a] + rest.drop_last()).push(rest.last()));
        assert(seq![b] + rest =~= (seq![b] + rest.drop_last()).push(rest.last()));
        lemma_scan_push(seq![a] + rest.drop_last(), rest.last());
        lemma_scan_push(seq![b] + rest.drop_last(), rest.last());
    }
}

/// The words `Ctrl` and `Control` read as the Ctrl modifier.
proof fn lemma_ctrl_words()
    ensures
        text::trim(ctrl_word()) == ctrl_word(),
        text::trim(control_word()) == control_word(),
        modifier_bit(ctrl_word()) == 1,
        modifier_bit(control_word()) == 1,
        !ctrl_word().contains('+'),
        !control_word().contains('+'),
{
    lemma_trim_noop(ctrl_word());
    lemma_trim_noop(control_word());
    assert(text::ascii_upper_seq(ctrl_word()) =~= ctrl_upper());
    assert(text::ascii_upper_seq(control_word()) =~= control_upper());
    assert(!ctrl_word().contains('+')) by {
        if ctrl_word().contains('+') {
            let i = choose|i: int| 0 <= i < ctrl_word().len() && ctrl_word()[i] == '+';
        }
    }
    assert(!control_word().contains('+')) by {
        if control_word().contains('+') {
            let i = choose|i: int| 0 <= i < control_word().len() && control_word()[i] == '+';
        }
    }
}

/// Binding text `w+k` (for a word `w` starting with `C`): it is trimmed at
/// its end only, it is not `unbound`, and its parts are `w` then those of the
/// trimmed `k`.
proof fn lemma_ctrl_prefixed_text(w: Seq<char>, k: Seq<char>)
    requires
        w == ctrl_word() || w == control_word(),
    ensures
        text::trim(w + seq!['+'] + k) == w + seq!['+'] + text::trim_end(k),
        text::trim(w + seq!['+'] + k).len() > 0,
        !text::eq_ignore_ascii_case(text::trim(w + seq!['+'] + k), unbound_word()),
        text::split_on(text::trim(w + seq!['+'] + k), '+') == seq![w] + text::split_on(
            text::trim_end(k),
            '+',
        ),
{
    lemma_ctrl_words();
    let p = w + seq!['+'];
    assert(p + k =~= w + seq!['+'] + k);
    assert(p[0] == 'C');
    assert(p.last() == '+');
    text::lemma_trim_after(p, k);
    let t = text::trim(w + seq!['+'] + k);
    assert(t =~= w + seq!['+'] + text::trim_end(k));
    assert(t[0] == 'C');
    assert(text::ascii_lower_seq(t)[0] == text::ascii_lower('C'));
    assert(text::ascii_lower_seq(unbound_word())[0] == text::ascii_lower('u'));
    text::lemma_split_after(w, text::trim_end(k), '+');
}

/// `Control` is another spelling of `Ctrl`: whatever follows it, a binding
/// text that begins `Control+` reads exactly as the one that begins
/// `Ctrl+`.
pub proof fn lemma_control_reads_as_ctrl(k: Seq<char>, fallback: Binding)
    ensures
        parse_binding_text(control_word() + seq!['+'] + k, fallback) == parse_binding_text(
            ctrl_word() + seq!['+'] + k,
            fallback,
        ),
{
    lemma_ctrl_words();
    lemma_ctrl_prefixed_text(control_word(), k);
    lemma_ctrl_prefixed_text(ctrl_word(), k);
    lemma_scan_same_first_modifier(
        control_word(),
        ctrl_word(),
        text::split_on(text::trim_end(k), '+'),
    );
}

/// `Ctrl+` before a key name binds that key with the Ctrl modifier alone:
/// for every key text `k` (no `+`, no surrounding whitespace, not itself a
/// modifier name) that names a key, `Ctrl+k` reads as that key with Ctrl.
pub proof fn lemma_ctrl_prefix_binds_key_with_ctrl(k: Seq<char>, fallback: Binding)
    requires
        k.len() > 0,
        !text::is_whitespace(k[0]),
        !text::is_whitespace(k.last()),
        !k.contains('+'),
        modifier_bit(k) == 0,
        key_names::key_name_lookup(k) is Some,
    ensures
        parse_binding_text(ctrl_word() + seq!['+'] + k, fallback) == (Binding {
            code: key_names::key_name_lookup(k)->0,
            mods: 1,
        }),
{
    lemma_ctrl_words();
    lemma_ctrl_prefixed_text(ctrl_word(), k);
    assert(text::trim_end(k) == k);
    lemma_trim_noop(k);
    text::lemma_split_whole(k, '+');
    let e = Seq::<Seq<char>>::empty();
    assert(seq![ctrl_word()] + seq![k] =~= e.push(ctrl_word()).push(k));
    lemma_scan_push(e, ctrl_word());
    lemma_scan_push(e.push(ctrl_word()), k);
    assert(mods_from_flags(true, false, false) == 1);
}

} // verus!
