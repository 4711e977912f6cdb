//! Key codes of keyboard keys, and labels of bindings.

use crate::prefs::key_names;
use crate::prefs::Binding;
use crate::text;
use vstd::prelude::*;

pub use crate::prefs::parser::binding_label;

verus! {

/// A keyboard key as the settings screen sees it: letters, digits, arrows,
/// Escape, Tab, Backspace, Enter, Space, and every other key.
#[derive(Clone, Copy, Debug, PartialEq, Eq, Structural)]
pub enum Key {
    A,
    B,
    C,
    D,
    E,
    F,
    G,
    H,
    I,
    J,
    K,
    L,
    M,
    N,
    O,
    P,
    Q,
    R,
    S,
    T,
    U,
    V,
    W,
    X,
    Y,
    Z,
    Num0,
    Num1,
    Num2,
    Num3,
    Num4,
    Num5,
    Num6,
    Num7,
    Num8,
    Num9,
    ArrowUp,
    ArrowDown,
    ArrowLeft,
    ArrowRight,
    Escape,
    Tab,
    Backspace,
    Enter,
    Space,
    Other,
}

/// The binding code of a key: letters and digits are their upper-case ASCII
/// codes, arrows `0x100..=0x103`, Escape/Tab/Backspace/Enter `0x200..=0x203`,
/// Space `' '`, and 0 for any other key.
pub open spec fn key_code(k: Key) -> u32 {
    match k {
        Key::A => 'A' as u32,
        Key::B => 'B' as u32,
        Key::C => 'C' as u32,
        Key::D => 'D' as u32,
        Key::E => 'E' as u32,
        Key::F => 'F' as u32,
        Key::G => 'G' as u32,
        Key::H => 'H' as u32,
        Key::I => 'I' as u32,
        Key::J => 'J' as u32,
        Key::K => 'K' as u32,
        Key::L => 'L' as u32,
        Key::M => 'M' as u32,
        Key::N => 'N' as u32,
        Key::O => 'O' as u32,
        Key::P => 'P' as u32,
        Key::Q => 'Q' as u32,
        Key::R => 'R' as u32,
        Key::S => 'S' as u32,
        Key::T => 'T' as u32,
        Key::U => 'U' as u32,
        Key::V => 'V' as u32,
        Key::W => 'W' as u32,
        Key::X => 'X' as u32,
        Key::Y => 'Y' as u32,
        Key::Z => 'Z' as u32,
        Key::Num0 => '0' as u32,
        Key::Num1 => '1' as u32,
        Key::Num2 => '2' as u32,
        Key::Num3 => '3' as u32,
        Key::Num4 => '4' as u32,
        Key::Num5 => '5' as u32,
        Key::Num6 => '6' as u32,
        Key::Num7 => '7' as u32,
        Key::Num8 => '8' as u32,
        Key::Num9 => '9' as u32,
        Key::ArrowUp => 0x100,
        Key::ArrowDown => 0x101,
        Key::ArrowLeft => 0x102,
        Key::ArrowRight => 0x103,
        Key::Escape => 0x200,
        Key::Tab => 0x201,
        Key::Backspace => 0x202,
        Key::Enter => 0x203,
        Key::Space => ' ' as u32,
        Key::Other => 0,
    }
}

/// The name printed on a key (`A`, `7`, `ArrowDown`, `Escape`, `Space`);
/// any other key has none.
pub open spec fn key_cap_name(k: Key) -> Seq<char> {
    match k {
        Key::A => seq!['A'],
        Key::B => seq!['B'],
        Key::C => seq!['C'],
        Key::D => seq!['D'],
        Key::E => seq!['E'],
        Key::F => seq!['F'],
        Key::G => seq!['G'],
        Key::H => seq!['H'],
        Key::I => seq!['I'],
        Key::J => seq!['J'],
        Key::K => seq!['K'],
        Key::L => seq!['L'],
        Key::M => seq!['M'],
        Key::N => seq!['N'],
        Key::O => seq!['O'],
        Key::P => seq!['P'],
        Key::Q => seq!['Q'],
        Key::R => seq!['R'],
        Key::S => seq!['S'],
        Key::T => seq!['T'],
        Key::U => seq!['U'],
        Key::V => seq!['V'],
        Key::W => seq!['W'],
        Key::X => seq!['X'],
        Key::Y => seq!['Y'],
        Key::Z => seq!['Z'],
        Key::Num0 => seq!['0'],
        Key::Num1 => seq!['1'],
        Key::Num2 => seq!['2'],
        Key::Num3 => seq!['3'],
        Key::Num4 => seq!['4'],
        Key::Num5 => seq!['5'],
        Key::Num6 => seq!['6'],
        Key::Num7 => seq!['7'],
        Key::Num8 => seq!['8'],
        Key::Num9 => seq!['9'],
        Key::ArrowUp => seq!['A', 'r', 'r', 'o', 'w', 'U', 'p'],
        Key::ArrowDown => seq!['A', 'r', 'r', 'o', 'w', 'D', 'o', 'w', 'n'],
        Key::ArrowLeft => seq!['A', 'r', 'r', 'o', 'w', 'L', 'e', 'f', 't'],
        Key::ArrowRight => seq!['A', 'r', 'r', 'o', 'w', 'R', 'i', 'g', 'h', 't'],
        Key::Escape => seq!['E', 's', 'c', 'a', 'p', 'e'],
        Key::Tab => seq!['T', 'a', 'b'],
        Key::Backspace => seq!['B', 'a', 'c', 'k', 's', 'p', 'a', 'c', 'e'],
        Key::Enter => seq!['E', 'n', 't', 'e', 'r'],
        Key::Space => seq!['S', 'p', 'a', 'c', 'e'],
        Key::Other => Seq::<char>::empty(),
    }
}

/// A key press binds the key that the preferences file names the same way:
/// every named key's code is the code its printed name reads as in binding
/// text, and only keys without a name have no code.
pub proof fn lemma_key_code_is_named_key(k: Key)
    ensures
        k != Key::Other ==> key_names::key_name_lookup(key_cap_name(k)) == Some(key_code(k)),
        (key_code(k) == 0) == (k == Key::Other),
{
    let n = key_cap_name(k);
    let u = text::ascii_upper_seq(n);
    match k {
        Key::ArrowUp => { assert(u =~= seq!['A', 'R', 'R', 'O', 'W', 'U', 'P']); },
        Key::ArrowDown => { assert(u =~= seq!['A', 'R', 'R', 'O', 'W', 'D', 'O', 'W', 'N']); },
        Key::ArrowLeft => { assert(u =~= seq!['A', 'R', 'R', 'O', 'W', 'L', 'E', 'F', 'T']); },
        Key::ArrowRight => { assert(u =~= seq!['A', 'R', 'R', 'O', 'W', 'R', 'I', 'G', 'H', 'T']); },
        Key::Escape => { assert(u =~= seq!['E', 'S', 'C', 'A', 'P', 'E']); },
        Key::Tab => { assert(u =~= seq!['T', 'A', 'B']); },
        Key::Backspace => { assert(u =~= seq!['B', 'A', 'C', 'K', 'S', 'P', 'A', 'C', 'E']); },
        Key::Enter => { assert(u =~= seq!['E', 'N', 'T', 'E', 'R']); },
        Key::Space => { assert(u =~= seq!['S', 'P', 'A', 'C', 'E']); },
        Key::Other => {},
        _ => {
            assert(n.len() == 1);
            assert(u =~= seq![text::ascii_upper(n[0])]);
            assert(text::ascii_upper(n[0]) == n[0]);
            assert(u =~= n);
        },
    }
}

/// Different keys have different codes: a key press never binds another
/// key's code.
pub proof fn lemma_key_codes_distinct(k1: Key, k2: Key)
    ensures
        key_code(k1) == key_code(k2) ==> k1 == k2,
{
}

/// Map a key to the numeric code stored in bindings (0 if the key is
/// unmapped).
pub fn key_to_code(k: &Key) -> (code: u32)
    ensures
        code == key_code(*k),
{
    match k {
        Key::A => 'A' as u32,
        Key::B => 'B' as u32,
        Key::C => 'C' as u32,
        Key::D => 'D' as u32,
        Key::E => 'E' as u32,
        Key::F => 'F' as u32,
        Key::G => 'G' as u32,
        Key::H => 'H' as u32,
        Key::I => 'I' as u32,
        Key::J => 'J' as u32,
        Key::K => 'K' as u32,
        Key::L => 'L' as u32,
        Key::M => 'M' as u32,
        Key::N => 'N' as u32,
        Key::O => 'O' as u32,
        Key::P => 'P' as u32,
        Key::Q => 'Q' as u32,
        Key::R => 'R' as u32,
        Key::S => 'S' as u32,
        Key::T => 'T' as u32,
        Key::U => 'U' as u32,
        Key::V => 'V' as u32,
        Key::W => 'W' as u32,
        Key::X => 'X' as u32,
        Key::Y => 'Y' as u32,
        Key::Z => 'Z' as u32,
        Key::Num0 => '0' as u32,
        Key::Num1 => '1' as u32,
        Key::Num2 => '2' as u32,
        Key::Num3 => '3' as u32,
        Key::Num4 => '4' as u32,
        Key::Num5 => '5' as u32,
        Key::Num6 => '6' as u32,
        Key::Num7 => '7' as u32,
        Key::Num8 => '8' as u32,
        Key::Num9 => '9' as u32,
        Key::ArrowUp => 0x100,
        Key::ArrowDown => 0x101,
        Key::ArrowLeft => 0x102,
        Key::ArrowRight => 0x103,
        Key::Escape => 0x200,
        Key::Tab => 0x201,
        Key::Backspace => 0x202,
        Key::Enter => 0x203,
        Key::Space => ' ' as u32,
        Key::Other => 0,
    }
}

/// The modifier keys held down.
#[derive(Clone, Copy, Debug, PartialEq, Eq, Structural)]
pub struct Modifiers {
    pub ctrl: bool,
    pub shift: bool,
    pub alt: bool,
}

} // verus!
