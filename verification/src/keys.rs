//! Virtual-key codes and the names that binds are written with.

use crate::text::{
    all_digits, chars_of, decimal, digits_value, is_digit, is_text, law_number_reads_back, lemma_decimal_value,
    lemma_upper_trimmed, lemma_upper_twice, number, parse_number, push_decimal, to_ascii_uppercase,
    trim, trimmed, upper, upper_char,
};
use vstd::prelude::*;
use vstd::slice::slice_subrange;

verus! {

pub const VK_SHIFT: u32 = 0x10;

pub const VK_CONTROL: u32 = 0x11;

pub const VK_MENU: u32 = 0x12;

pub const VK_ESCAPE: u32 = 0x1b;

pub const VK_LWIN: u32 = 0x5b;

pub const VK_RWIN: u32 = 0x5c;

/// The code of `F1`; the codes of the other function keys follow it.
pub const VK_F1: u32 = 0x70;

/// A key of the keyboard, as an input event names it.
#[derive(Clone, Copy, PartialEq, Eq, Structural, Debug)]
pub enum Key {
    A,
    B,
    C,
    D,
    E,
    F,
    G,
    H,
    I,
    J,
    K,
    L,
    M,
    N,
    O,
    P,
    Q,
    R,
    S,
    T,
    U,
    V,
    W,
    X,
    Y,
    Z,
    Num0,
    Num1,
    Num2,
    Num3,
    Num4,
    Num5,
    Num6,
    Num7,
    Num8,
    Num9,
    F1,
    F2,
    F3,
    F4,
    F5,
    F6,
    F7,
    F8,
    F9,
    F10,
    F11,
    F12,
    F13,
    F14,
    F15,
    F16,
    F17,
    F18,
    F19,
    F20,
    F21,
    F22,
    F23,
    F24,
    Escape,
    Space,
    Tab,
    Enter,
    Backspace,
    Insert,
    Delete,
    Home,
    End,
    PageUp,
    PageDown,
    ArrowLeft,
    ArrowUp,
    ArrowRight,
    ArrowDown,
    Semicolon,
    Plus,
    Comma,
    Minus,
    Period,
    Slash,
    Questionmark,
    Backtick,
    OpenBracket,
    OpenCurlyBracket,
    Backslash,
    Pipe,
    CloseBracket,
    CloseCurlyBracket,
    Quote,
    ShiftLeft,
    ShiftRight,
    ControlLeft,
    ControlRight,
    AltLeft,
    AltRight,
    SuperLeft,
    SuperRight,
    /// A key that no bind can use.
    Other,
}

/// Whether `vk` is the code of a letter.
pub open spec fn letter_vk(vk: u32) -> bool {
    0x41 <= vk <= 0x5a
}

/// Whether `vk` is the code of a digit of the main row.
pub open spec fn digit_vk(vk: u32) -> bool {
    0x30 <= vk <= 0x39
}

/// Whether `vk` is the code of one of `F1` to `F24`.
pub open spec fn function_vk(vk: u32) -> bool {
    VK_F1 <= vk <= 0x87
}

/// Whether `vk` is the code of a Shift, Control, Alt or Windows key.
pub open spec fn modifier_vk(vk: u32) -> bool {
    vk == VK_SHIFT || vk == VK_CONTROL || vk == VK_MENU || vk == VK_LWIN || vk == VK_RWIN || 0xa0
        <= vk <= 0xa5
}

pub fn is_letter_vk(vk: u32) -> (b: bool)
    ensures
        b == letter_vk(vk),
{
    0x41 <= vk && vk <= 0x5a
}

pub fn is_modifier_vk(vk: u32) -> (b: bool)
    ensures
        b == modifier_vk(vk),
{
    matches!(vk, 0x10 | 0x11 | 0x12 | 0x5b | 0x5c | 0xa0..=0xa5)
}

/// The name of a key that is neither a letter, a digit nor a function key.
pub open spec fn special_name(vk: u32) -> Option<Seq<char>> {
    match vk {
        0x1b => Some("Esc"@),
        0x20 => Some("Space"@),
        0x09 => Some("Tab"@),
        0x0d => Some("Enter"@),
        0x08 => Some("Backspace"@),
        0x2d => Some("Insert"@),
        0x2e => Some("Delete"@),
        0x24 => Some("Home"@),
        0x23 => Some("End"@),
        0x21 => Some("PageUp"@),
        0x22 => Some("PageDown"@),
        0x25 => Some("Left"@),
        0x26 => Some("Up"@),
        0x27 => Some("Right"@),
        0x28 => Some("Down"@),
        0xba => Some("Semicolon"@),
        0xbb => Some("Plus"@),
        0xbc => Some("Comma"@),
        0xbd => Some("Minus"@),
        0xbe => Some("Period"@),
        0xbf => Some("Slash"@),
        0xc0 => Some("Backtick"@),
        0xdb => Some("OpenBracket"@),
        0xdc => Some("Backslash"@),
        0xdd => Some("CloseBracket"@),
        0xde => Some("Quote"@),
        _ => None,
    }
}

/// The key that has the upper-case name `u`, among those that are neither a letter, a
/// digit nor a function key. Some have a second name.
pub open spec fn special_vk(u: Seq<char>) -> Option<u32> {
    if u == "ESC"@ || u == "ESCAPE"@ {
        Some(0x1b)
    } else if u == "SPACE"@ {
        Some(0x20)
    } else if u == "TAB"@ {
        Some(0x09)
    } else if u == "ENTER"@ || u == "RETURN"@ {
        Some(0x0d)
    } else if u == "BACKSPACE"@ {
        Some(0x08)
    } else if u == "INSERT"@ || u == "INS"@ {
        Some(0x2d)
    } else if u == "DELETE"@ || u == "DEL"@ {
        Some(0x2e)
    } else if u == "HOME"@ {
        Some(0x24)
    } else if u == "END"@ {
        Some(0x23)
    } else if u == "PAGEUP"@ || u == "PGUP"@ {
        Some(0x21)
    } else if u == "PAGEDOWN"@ || u == "PGDN"@ {
        Some(0x22)
    } else if u == "LEFT"@ {
        Some(0x25)
    } else if u == "UP"@ {
        Some(0x26)
    } else if u == "RIGHT"@ {
        Some(0x27)
    } else if u == "DOWN"@ {
        Some(0x28)
    } else if u == "SEMICOLON"@ {
        Some(0xba)
    } else if u == "PLUS"@ {
        Some(0xbb)
    } else if u == "COMMA"@ {
        Some(0xbc)
    } else if u == "MINUS"@ {
        Some(0xbd)
    } else if u == "PERIOD"@ {
        Some(0xbe)
    } else if u == "SLASH"@ {
        Some(0xbf)
    } else if u == "BACKTICK"@ {
        Some(0xc0)
    } else if u == "OPENBRACKET"@ {
        Some(0xdb)
    } else if u == "BACKSLASH"@ {
        Some(0xdc)
    } else if u == "CLOSEBRACKET"@ {
        Some(0xdd)
    } else if u == "QUOTE"@ {
        Some(0xde)
    } else {
        None
    }
}

/// The name of the key `vk`. A letter or a digit names itself, a function key is `F` and
/// its number, and a key without a name is `VK` and its code.
pub open spec fn key_name(vk: u32) -> Seq<char> {
    if letter_vk(vk) || digit_vk(vk) {
        seq![vk as char]
    } else if function_vk(vk) {
        seq!['F'] + decimal((vk - VK_F1 + 1) as nat)
    } else {
        match special_name(vk) {
            Some(name) => name,
            None => "VK"@ + decimal(vk as nat),
        }
    }
}

/// Whether `c` is an upper-case letter or a digit.
pub open spec fn names_itself(c: char) -> bool {
    'A' <= c <= 'Z' || is_digit(c)
}

/// The number of the function key that has the upper-case name `u`.
pub open spec fn function_number(u: Seq<char>) -> Option<nat> {
    if u.len() > 0 && u.first() == 'F' {
        match number(u.drop_first(), u32::MAX as nat) {
            Some(n) => if 1 <= n <= 24 {
                Some(n)
            } else {
                None
            },
            None => None,
        }
    } else {
        None
    }
}

/// The key that `s` names. White space around the name and the case of its ASCII
/// letters do not matter.
pub open spec fn named_vk(s: Seq<char>) -> Option<u32> {
    let u = upper(trimmed(s));
    if u.len() == 1 && names_itself(u.first()) {
        Some(u.first() as u32)
    } else {
        match function_number(u) {
            Some(n) => Some((VK_F1 + n - 1) as u32),
            None => special_vk(u),
        }
    }
}

/// The name of the key `vk`.
pub fn vk_to_name(vk: u32) -> (name: String)
    ensures
        name@ == key_name(vk),
{
    if is_letter_vk(vk) || (0x30 <= vk && vk <= 0x39) {
        let mut name: String = String::new();
        name.push(vk as u8 as char);
        assert(name@ =~= seq![vk as char]);
        return name;
    }
    if VK_F1 <= vk && vk <= 0x87 {
        let mut name: String = String::new();
        name.push('F');
        push_decimal(&mut name, (vk - VK_F1 + 1) as u64);
        assert(name@ =~= seq!['F'] + decimal((vk - VK_F1 + 1) as nat));
        return name;
    }
    match vk {
        0x1b => "Esc".to_string(),
        0x20 => "Space".to_string(),
        0x09 => "Tab".to_string(),
        0x0d => "Enter".to_string(),
        0x08 => "Backspace".to_string(),
        0x2d => "Insert".to_string(),
        0x2e => "Delete".to_string(),
        0x24 => "Home".to_string(),
        0x23 => "End".to_string(),
        0x21 => "PageUp".to_string(),
        0x22 => "PageDown".to_string(),
        0x25 => "Left".to_string(),
        0x26 => "Up".to_string(),
        0x27 => "Right".to_string(),
        0x28 => "Down".to_string(),
        0xba => "Semicolon".to_string(),
        0xbb => "Plus".to_string(),
        0xbc => "Comma".to_string(),
        0xbd => "Minus".to_string(),
        0xbe => "Period".to_string(),
        0xbf => "Slash".to_string(),
        0xc0 => "Backtick".to_string(),
        0xdb => "OpenBracket".to_string(),
        0xdc => "Backslash".to_string(),
        0xdd => "CloseBracket".to_string(),
        0xde => "Quote".to_string(),
        _ => {
            let mut name: String = "VK".to_string();
            push_decimal(&mut name, vk as u64);
            name
        },
    }
}

fn vk_of_special(u: &[char]) -> (vk: Option<u32>)
    ensures
        vk == special_vk(u@),
{
    if is_text(u, "ESC") || is_text(u, "ESCAPE") {
        Some(0x1b)
    } else if is_text(u, "SPACE") {
        Some(0x20)
    } else if is_text(u, "TAB") {
        Some(0x09)
    } else if is_text(u, "ENTER") || is_text(u, "RETURN") {
        Some(0x0d)
    } else if is_text(u, "BACKSPACE") {
        Some(0x08)
    } else if is_text(u, "INSERT") || is_text(u, "INS") {
        Some(0x2d)
    } else if is_text(u, "DELETE") || is_text(u, "DEL") {
        Some(0x2e)
    } else if is_text(u, "HOME") {
        Some(0x24)
    } else if is_text(u, "END") {
        Some(0x23)
    } else if is_text(u, "PAGEUP") || is_text(u, "PGUP") {
        Some(0x21)
    } else if is_text(u, "PAGEDOWN") || is_text(u, "PGDN") {
        Some(0x22)
    } else if is_text(u, "LEFT") {
        Some(0x25)
    } else if is_text(u, "UP") {
        Some(0x26)
    } else if is_text(u, "RIGHT") {
        Some(0x27)
    } else if is_text(u, "DOWN") {
        Some(0x28)
    } else if is_text(u, "SEMICOLON") {
        Some(0xba)
    } else if is_text(u, "PLUS") {
        Some(0xbb)
    } else if is_text(u, "COMMA") {
        Some(0xbc)
    } else if is_text(u, "MINUS") {
        Some(0xbd)
    } else if is_text(u, "PERIOD") {
        Some(0xbe)
    } else if is_text(u, "SLASH") {
        Some(0xbf)
    } else if is_text(u, "BACKTICK") {
        Some(0xc0)
    } else if is_text(u, "OPENBRACKET") {
        Some(0xdb)
    } else if is_text(u, "BACKSLASH") {
        Some(0xdc)
    } else if is_text(u, "CLOSEBRACKET") {
        Some(0xdd)
    } else if is_text(u, "QUOTE") {
        Some(0xde)
    } else {
        None
    }
}

/// The key that `value` names.
pub fn vk_from_chars(value: &[char]) -> (vk: Option<u32>)
    ensures
        vk == named_vk(value@),
{
    let upper_name: Vec<char> = to_ascii_uppercase(trim(value));
    let u: &[char] = upper_name.as_slice();
    if u.len() == 1 {
        let c: char = u[0];
        if ('A' <= c && c <= 'Z') || ('0' <= c && c <= '9') {
            return Some(c as u32);
        }
    }
    if u.len() > 0 && u[0] == 'F' {
        let rest: &[char] = slice_subrange(u, 1, u.len());
        assert(rest@ =~= u@.drop_first());
        if let Some(n) = parse_number(rest, u32::MAX as u64) {
            if 1 <= n && n <= 24 {
                return Some(VK_F1 + n as u32 - 1);
            }
        }
    }
    vk_of_special(u)
}

/// The key that `value` names.
pub fn vk_from_name(value: &str) -> (vk: Option<u32>)
    ensures
        vk == named_vk(value@),
{
    vk_from_chars(chars_of(value).as_slice())
}

/// The virtual-key code that a bind on `key` gets.
pub open spec fn bind_vk(key: Key) -> Option<u32> {
    match key {
        Key::A => Some(0x41),
        Key::B => Some(0x42),
        Key::C => Some(0x43),
        Key::D => Some(0x44),
        Key::E => Some(0x45),
        Key::F => Some(0x46),
        Key::G => Some(0x47),
        Key::H => Some(0x48),
        Key::I => Some(0x49),
        Key::J => Some(0x4a),
        Key::K => Some(0x4b),
        Key::L => Some(0x4c),
        Key::M => Some(0x4d),
        Key::N => Some(0x4e),
        Key::O => Some(0x4f),
        Key::P => Some(0x50),
        Key::Q => Some(0x51),
        Key::R => Some(0x52),
        Key::S => Some(0x53),
        Key::T => Some(0x54),
        Key::U => Some(0x55),
        Key::V => Some(0x56),
        Key::W => Some(0x57),
        Key::X => Some(0x58),
        Key::Y => Some(0x59),
        Key::Z => Some(0x5a),
        Key::Num0 => Some(0x30),
        Key::Num1 => Some(0x31),
        Key::Num2 => Some(0x32),
        Key::Num3 => Some(0x33),
        Key::Num4 => Some(0x34),
        Key::Num5 => Some(0x35),
        Key::Num6 => Some(0x36),
        Key::Num7 => Some(0x37),
        Key::Num8 => Some(0x38),
        Key::Num9 => Some(0x39),
        Key::F1 => Some(0x70),
        Key::F2 => Some(0x71),
        Key::F3 => Some(0x72),
        Key::F4 => Some(0x73),
        Key::F5 => Some(0x74),
        Key::F6 => Some(0x75),
        Key::F7 => Some(0x76),
        Key::F8 => Some(0x77),
        Key::F9 => Some(0x78),
        Key::F10 => Some(0x79),
        Key::F11 => Some(0x7a),
        Key::F12 => Some(0x7b),
        Key::F13 => Some(0x7c),
        Key::F14 => Some(0x7d),
        Key::F15 => Some(0x7e),
        Key::F16 => Some(0x7f),
        Key::F17 => Some(0x80),
        Key::F18 => Some(0x81),
        Key::F19 => Some(0x82),
        Key::F20 => Some(0x83),
        Key::F21 => Some(0x84),
        Key::F22 => Some(0x85),
        Key::F23 => Some(0x86),
        Key::F24 => Some(0x87),
        Key::Escape => Some(0x1b),
        Key::Space => Some(0x20),
        Key::Tab => Some(0x09),
        Key::Enter => Some(0x0d),
        Key::Backspace => Some(0x08),
        Key::Insert => Some(0x2d),
        Key::Delete => Some(0x2e),
        Key::Home => Some(0x24),
        Key::End => Some(0x23),
        Key::PageUp => Some(0x21),
        Key::PageDown => Some(0x22),
        Key::ArrowLeft => Some(0x25),
        Key::ArrowUp => Some(0x26),
        Key::ArrowRight => Some(0x27),
        Key::ArrowDown => Some(0x28),
        Key::Semicolon => Some(0xba),
        Key::Plus => Some(0xbb),
        Key::Comma => Some(0xbc),
        Key::Minus => Some(0xbd),
        Key::Period => Some(0xbe),
        Key::Slash | Key::Questionmark => Some(0xbf),
        Key::Backtick => Some(0xc0),
        Key::OpenBracket | Key::OpenCurlyBracket => Some(0xdb),
        Key::Backslash | Key::Pipe => Some(0xdc),
        Key::CloseBracket | Key::CloseCurlyBracket => Some(0xdd),
        Key::Quote => Some(0xde),
        _ => None,
    }
}

/// The virtual-key code that a bind on `key` gets, where a bind can use the key.
pub fn egui_key_to_vk(key: Key) -> (vk: Option<u32>)
    ensures
        vk == bind_vk(key),
{
    match key {
        Key::A => Some(0x41),
        Key::B => Some(0x42),
        Key::C => Some(0x43),
        Key::D => Some(0x44),
        Key::E => Some(0x45),
        Key::F => Some(0x46),
        Key::G => Some(0x47),
        Key::H => Some(0x48),
        Key::I => Some(0x49),
        Key::J => Some(0x4a),
        Key::K => Some(0x4b),
        Key::L => Some(0x4c),
        Key::M => Some(0x4d),
        Key::N => Some(0x4e),
        Key::O => Some(0x4f),
        Key::P => Some(0x50),
        Key::Q => Some(0x51),
        Key::R => Some(0x52),
        Key::S => Some(0x53),
        Key::T => Some(0x54),
        Key::U => Some(0x55),
        Key::V => Some(0x56),
        Key::W => Some(0x57),
        Key::X => Some(0x58),
        Key::Y => Some(0x59),
        Key::Z => Some(0x5a),
        Key::Num0 => Some(0x30),
        Key::Num1 => Some(0x31),
        Key::Num2 => Some(0x32),
        Key::Num3 => Some(0x33),
        Key::Num4 => Some(0x34),
        Key::Num5 => Some(0x35),
        Key::Num6 => Some(0x36),
        Key::Num7 => Some(0x37),
        Key::Num8 => Some(0x38),
        Key::Num9 => Some(0x39),
        Key::F1 => Some(0x70),
        Key::F2 => Some(0x71),
        Key::F3 => Some(0x72),
        Key::F4 => Some(0x73),
        Key::F5 => Some(0x74),
        Key::F6 => Some(0x75),
        Key::F7 => Some(0x76),
        Key::F8 => Some(0x77),
        Key::F9 => Some(0x78),
        Key::F10 => Some(0x79),
        Key::F11 => Some(0x7a),
        Key::F12 => Some(0x7b),
        Key::F13 => Some(0x7c),
        Key::F14 => Some(0x7d),
        Key::F15 => Some(0x7e),
        Key::F16 => Some(0x7f),
        Key::F17 => Some(0x80),
        Key::F18 => Some(0x81),
        Key::F19 => Some(0x82),
        Key::F20 => Some(0x83),
        Key::F21 => Some(0x84),
        Key::F22 => Some(0x85),
        Key::F23 => Some(0x86),
        Key::F24 => Some(0x87),
        Key::Escape => Some(0x1b),
        Key::Space => Some(0x20),
        Key::Tab => Some(0x09),
        Key::Enter => Some(0x0d),
        Key::Backspace => Some(0x08),
        Key::Insert => Some(0x2d),
        Key::Delete => Some(0x2e),
        Key::Home => Some(0x24),
        Key::End => Some(0x23),
        Key::PageUp => Some(0x21),
        Key::PageDown => Some(0x22),
        Key::ArrowLeft => Some(0x25),
        Key::ArrowUp => Some(0x26),
        Key::ArrowRight => Some(0x27),
        Key::ArrowDown => Some(0x28),
        Key::Semicolon => Some(0xba),
        Key::Plus => Some(0xbb),
        Key::Comma => Some(0xbc),
        Key::Minus => Some(0xbd),
        Key::Period => Some(0xbe),
        Key::Slash | Key::Questionmark => Some(0xbf),
        Key::Backtick => Some(0xc0),
        Key::OpenBracket | Key::OpenCurlyBracket => Some(0xdb),
        Key::Backslash | Key::Pipe => Some(0xdc),
        Key::CloseBracket | Key::CloseCurlyBracket => Some(0xdd),
        Key::Quote => Some(0xde),
        _ => None,
    }
}

/// Whether `key` is one of the keys that only modify others.
pub open spec fn modifier_key(key: Key) -> bool {
    match key {
        Key::ShiftLeft | Key::ShiftRight | Key::ControlLeft | Key::ControlRight => true,
        Key::AltLeft | Key::AltRight | Key::SuperLeft | Key::SuperRight => true,
        _ => false,
    }
}

pub fn is_egui_modifier_key(key: Key) -> (b: bool)
    ensures
        b == modifier_key(key),
{
    matches!(
        key,
        Key::ShiftLeft | Key::ShiftRight | Key::ControlLeft | Key::ControlRight | Key::AltLeft
            | Key::AltRight | Key::SuperLeft | Key::SuperRight
    )
}

/// Whether `s` consists of ASCII letters and digits, one at least.
pub open spec fn is_word(s: Seq<char>) -> bool {
    s.len() > 0 && forall|i: int|
        0 <= i < s.len() ==> 'a' <= #[trigger] s[i] <= 'z' || names_itself(s[i])
}

/// Whether the key has a name of its own, and not only its code.
pub open spec fn nameable(vk: u32) -> bool {
    letter_vk(vk) || digit_vk(vk) || function_vk(vk) || special_name(vk) is Some
}

/// The upper-case names, character by character.
proof fn lemma_upper_names()
    ensures
        "ESC"@ == seq!['E', 'S', 'C'],
        "ESCAPE"@ == seq!['E', 'S', 'C', 'A', 'P', 'E'],
        "SPACE"@ == seq!['S', 'P', 'A', 'C', 'E'],
        "TAB"@ == seq!['T', 'A', 'B'],
        "ENTER"@ == seq!['E', 'N', 'T', 'E', 'R'],
        "RETURN"@ == seq!['R', 'E', 'T', 'U', 'R', 'N'],
        "BACKSPACE"@ == seq!['B', 'A', 'C', 'K', 'S', 'P', 'A', 'C', 'E'],
        "INSERT"@ == seq!['I', 'N', 'S', 'E', 'R', 'T'],
        "INS"@ == seq!['I', 'N', 'S'],
        "DELETE"@ == seq!['D', 'E', 'L', 'E', 'T', 'E'],
        "DEL"@ == seq!['D', 'E', 'L'],
        "HOME"@ == seq!['H', 'O', 'M', 'E'],
        "END"@ == seq!['E', 'N', 'D'],
        "PAGEUP"@ == seq!['P', 'A', 'G', 'E', 'U', 'P'],
        "PGUP"@ == seq!['P', 'G', 'U', 'P'],
        "PAGEDOWN"@ == seq!['P', 'A', 'G', 'E', 'D', 'O', 'W', 'N'],
        "PGDN"@ == seq!['P', 'G', 'D', 'N'],
        "LEFT"@ == seq!['L', 'E', 'F', 'T'],
        "UP"@ == seq!['U', 'P'],
        "RIGHT"@ == seq!['R', 'I', 'G', 'H', 'T'],
        "DOWN"@ == seq!['D', 'O', 'W', 'N'],
        "SEMICOLON"@ == seq!['S', 'E', 'M', 'I', 'C', 'O', 'L', 'O', 'N'],
        "PLUS"@ == seq!['P', 'L', 'U', 'S'],
        "COMMA"@ == seq!['C', 'O', 'M', 'M', 'A'],
        "MINUS"@ == seq!['M', 'I', 'N', 'U', 'S'],
        "PERIOD"@ == seq!['P', 'E', 'R', 'I', 'O', 'D'],
        "SLASH"@ == seq!['S', 'L', 'A', 'S', 'H'],
        "BACKTICK"@ == seq!['B', 'A', 'C', 'K', 'T', 'I', 'C', 'K'],
        "OPENBRACKET"@ == seq!['O', 'P', 'E', 'N', 'B', 'R', 'A', 'C', 'K', 'E', 'T'],
        "BACKSLASH"@ == seq!['B', 'A', 'C', 'K', 'S', 'L', 'A', 'S', 'H'],
        "CLOSEBRACKET"@ == seq!['C', 'L', 'O', 'S', 'E', 'B', 'R', 'A', 'C', 'K', 'E', 'T'],
        "QUOTE"@ == seq!['Q', 'U', 'O', 'T', 'E'],
{
    reveal_strlit("ESC");
    reveal_strlit("ESCAPE");
    reveal_strlit("SPACE");
    reveal_strlit("TAB");
    reveal_strlit("ENTER");
    reveal_strlit("RETURN");
    reveal_strlit("BACKSPACE");
    reveal_strlit("INSERT");
    reveal_strlit("INS");
    reveal_strlit("DELETE");
    reveal_strlit("DEL");
    reveal_strlit("HOME");
    reveal_strlit("END");
    reveal_strlit("PAGEUP");
    reveal_strlit("PGUP");
    reveal_strlit("PAGEDOWN");
    reveal_strlit("PGDN");
    reveal_strlit("LEFT");
    reveal_strlit("UP");
    reveal_strlit("RIGHT");
    reveal_strlit("DOWN");
    reveal_strlit("SEMICOLON");
    reveal_strlit("PLUS");
    reveal_strlit("COMMA");
    reveal_strlit("MINUS");
    reveal_strlit("PERIOD");
    reveal_strlit("SLASH");
    reveal_strlit("BACKTICK");
    reveal_strlit("OPENBRACKET");
    reveal_strlit("BACKSLASH");
    reveal_strlit("CLOSEBRACKET");
    reveal_strlit("QUOTE");
    assert("ESC"@ =~= seq!['E', 'S', 'C']);
    assert("ESCAPE"@ =~= seq!['E', 'S', 'C', 'A', 'P', 'E']);
    assert("SPACE"@ =~= seq!['S', 'P', 'A', 'C', 'E']);
    assert("TAB"@ =~= seq!['T', 'A', 'B']);
    assert("ENTER"@ =~= seq!['E', 'N', 'T', 'E', 'R']);
    assert("RETURN"@ =~= seq!['R', 'E', 'T', 'U', 'R', 'N']);
    assert("BACKSPACE"@ =~= seq!['B', 'A', 'C', 'K', 'S', 'P', 'A', 'C', 'E']);
    assert("INSERT"@ =~= seq!['I', 'N', 'S', 'E', 'R', 'T']);
    assert("INS"@ =~= seq!['I', 'N', 'S']);
    assert("DELETE"@ =~= seq!['D', 'E', 'L', 'E', 'T', 'E']);
    assert("DEL"@ =~= seq!['D', 'E', 'L']);
    assert("HOME"@ =~= seq!['H', 'O', 'M', 'E']);
    assert("END"@ =~= seq!['E', 'N', 'D']);
    assert("PAGEUP"@ =~= seq!['P', 'A', 'G', 'E', 'U', 'P']);
    assert("PGUP"@ =~= seq!['P', 'G', 'U', 'P']);
    assert("PAGEDOWN"@ =~= seq!['P', 'A', 'G', 'E', 'D', 'O', 'W', 'N']);
    assert("PGDN"@ =~= seq!['P', 'G', 'D', 'N']);
    assert("LEFT"@ =~= seq!['L', 'E', 'F', 'T']);
    assert("UP"@ =~= seq!['U', 'P']);
    assert("RIGHT"@ =~= seq!['R', 'I', 'G', 'H', 'T']);
    assert("DOWN"@ =~= seq!['D', 'O', 'W', 'N']);
    assert("SEMICOLON"@ =~= seq!['S', 'E', 'M', 'I', 'C', 'O', 'L', 'O', 'N']);
    assert("PLUS"@ =~= seq!['P', 'L', 'U', 'S']);
    assert("COMMA"@ =~= seq!['C', 'O', 'M', 'M', 'A']);
    assert("MINUS"@ =~= seq!['M', 'I', 'N', 'U', 'S']);
    assert("PERIOD"@ =~= seq!['P', 'E', 'R', 'I', 'O', 'D']);
    assert("SLASH"@ =~= seq!['S', 'L', 'A', 'S', 'H']);
    assert("BACKTICK"@ =~= seq!['B', 'A', 'C', 'K', 'T', 'I', 'C', 'K']);
    assert("OPENBRACKET"@ =~= seq!['O', 'P', 'E', 'N', 'B', 'R', 'A', 'C', 'K', 'E', 'T']);
    assert("BACKSLASH"@ =~= seq!['B', 'A', 'C', 'K', 'S', 'L', 'A', 'S', 'H']);
    assert("CLOSEBRACKET"@ =~= seq!['C', 'L', 'O', 'S', 'E', 'B', 'R', 'A', 'C', 'K', 'E', 'T']);
    assert("QUOTE"@ =~= seq!['Q', 'U', 'O', 'T', 'E']);
}

/// The name of a special key is a word, and its upper-case form names the key.
proof fn lemma_special_name(vk: u32)
    requires
        special_name(vk) is Some,
    ensures
        is_word(special_name(vk)->0),
        special_name(vk)->0.len() > 1,
        upper(special_name(vk)->0).first() != 'F',
        special_vk(upper(special_name(vk)->0)) == Some(vk),
{
    lemma_upper_names();
    if vk == 0x1b {
        reveal_strlit("Esc");
        assert(upper("Esc"@) =~= "ESC"@);
    }
    if vk == 0x20 {
        reveal_strlit("Space");
        assert(upper("Space"@) =~= "SPACE"@);
    }
    if vk == 0x09 {
        reveal_strlit("Tab");
        assert(upper("Tab"@) =~= "TAB"@);
    }
    if vk == 0x0d {
        reveal_strlit("Enter");
        assert(upper("Enter"@) =~= "ENTER"@);
    }
    if vk == 0x08 {
        reveal_strlit("Backspace");
        assert(upper("Backspace"@) =~= "BACKSPACE"@);
    }
    if vk == 0x2d {
        reveal_strlit("Insert");
        assert(upper("Insert"@) =~= "INSERT"@);
    }
    if vk == 0x2e {
        reveal_strlit("Delete");
        assert(upper("Delete"@) =~= "DELETE"@);
    }
    if vk == 0x24 {
        reveal_strlit("Home");
        assert(upper("Home"@) =~= "HOME"@);
    }
    if vk == 0x23 {
        reveal_strlit("End");
        assert(upper("End"@) =~= "END"@);
    }
    if vk == 0x21 {
        reveal_strlit("PageUp");
        assert(upper("PageUp"@) =~= "PAGEUP"@);
    }
    if vk == 0x22 {
        reveal_strlit("PageDown");
        assert(upper("PageDown"@) =~= "PAGEDOWN"@);
    }
    if vk == 0x25 {
        reveal_strlit("Left");
        assert(upper("Left"@) =~= "LEFT"@);
    }
    if vk == 0x26 {
        reveal_strlit("Up");
        assert(upper("Up"@) =~= "UP"@);
    }
    if vk == 0x27 {
        reveal_strlit("Right");
        assert(upper("Right"@) =~= "RIGHT"@);
    }
    if vk == 0x28 {
        reveal_strlit("Down");
        assert(upper("Down"@) =~= "DOWN"@);
    }
    if vk == 0xba {
        reveal_strlit("Semicolon");
        assert(upper("Semicolon"@) =~= "SEMICOLON"@);
    }
    if vk == 0xbb {
        reveal_strlit("Plus");
        assert(upper("Plus"@) =~= "PLUS"@);
    }
    if vk == 0xbc {
        reveal_strlit("Comma");
        assert(upper("Comma"@) =~= "COMMA"@);
    }
    if vk == 0xbd {
        reveal_strlit("Minus");
        assert(upper("Minus"@) =~= "MINUS"@);
    }
    if vk == 0xbe {
        reveal_strlit("Period");
        assert(upper("Period"@) =~= "PERIOD"@);
    }
    if vk == 0xbf {
        reveal_strlit("Slash");
        assert(upper("Slash"@) =~= "SLASH"@);
    }
    if vk == 0xc0 {
        reveal_strlit("Backtick");
        assert(upper("Backtick"@) =~= "BACKTICK"@);
    }
    if vk == 0xdb {
        reveal_strlit("OpenBracket");
        assert(upper("OpenBracket"@) =~= "OPENBRACKET"@);
    }
    if vk == 0xdc {
        reveal_strlit("Backslash");
        assert(upper("Backslash"@) =~= "BACKSLASH"@);
    }
    if vk == 0xdd {
        reveal_strlit("CloseBracket");
        assert(upper("CloseBracket"@) =~= "CLOSEBRACKET"@);
    }
    if vk == 0xde {
        reveal_strlit("Quote");
        assert(upper("Quote"@) =~= "QUOTE"@);
    }
}

/// Digits are a word that has no lower-case letters.
proof fn lemma_digits_word(s: Seq<char>)
    requires
        all_digits(s),
        s.len() > 0,
    ensures
        is_word(s),
        upper(s) == s,
{
    assert forall|i: int| 0 <= i < s.len() implies 'a' <= #[trigger] s[i] <= 'z' || names_itself(
        s[i],
    ) by {
        assert(is_digit(s[i]));
    }
    assert forall|i: int| 0 <= i < s.len() implies #[trigger] upper(s)[i] == s[i] by {
        assert(is_digit(s[i]));
    }
    assert(upper(s) =~= s);
}

/// A word has no white space to trim.
pub proof fn lemma_word_trimmed(s: Seq<char>)
    requires
        is_word(s),
    ensures
        trimmed(s) == s,
{
    assert(s.first() == s[0]);
    assert(s.last() == s[s.len() - 1]);
}

/// Every key name is a word.
pub proof fn lemma_key_name_word(vk: u32)
    ensures
        is_word(key_name(vk)),
{
    if letter_vk(vk) || digit_vk(vk) {
        assert(key_name(vk)[0] == vk as char);
    } else if function_vk(vk) {
        let d = decimal((vk - VK_F1 + 1) as nat);
        lemma_decimal_value((vk - VK_F1 + 1) as nat);
        lemma_digits_word(d);
        assert forall|i: int| 0 <= i < key_name(vk).len() implies 'a' <= #[trigger] key_name(vk)[i]
            <= 'z' || names_itself(key_name(vk)[i]) by {
            if i > 0 {
                assert(key_name(vk)[i] == d[i - 1]);
            }
        }
    } else if special_name(vk) is Some {
        lemma_special_name(vk);
    } else {
        let d = decimal(vk as nat);
        lemma_decimal_value(vk as nat);
        lemma_digits_word(d);
        reveal_strlit("VK");
        assert forall|i: int| 0 <= i < key_name(vk).len() implies 'a' <= #[trigger] key_name(vk)[i]
            <= 'z' || names_itself(key_name(vk)[i]) by {
            if i > 1 {
                assert(key_name(vk)[i] == d[i - 2]);
            }
        }
    }
}

/// The name of a key names that key. A name that is only the code of a key names none.
pub proof fn law_key_name_reads_back(vk: u32)
    ensures
        named_vk(key_name(vk)) == (if nameable(vk) {
            Some(vk)
        } else {
            None
        }),
{
    let name = key_name(vk);
    let u = upper(name);
    lemma_key_name_word(vk);
    lemma_word_trimmed(name);
    if letter_vk(vk) || digit_vk(vk) {
        assert(u.first() == vk as char);
    } else if function_vk(vk) {
        let n = (vk - VK_F1 + 1) as nat;
        lemma_decimal_value(n);
        lemma_digits_word(decimal(n));
        assert(u =~= seq!['F'] + upper(decimal(n)));
        assert(u.drop_first() =~= decimal(n));
        law_number_reads_back(n, u32::MAX as nat);
    } else if special_name(vk) is Some {
        lemma_special_name(vk);
    } else {
        lemma_decimal_value(vk as nat);
        lemma_digits_word(decimal(vk as nat));
        reveal_strlit("VK");
        assert(u =~= seq!['V', 'K'] + upper(decimal(vk as nat)));
        lemma_upper_names();
    }
}

/// The upper-case words for modifiers.
pub open spec fn is_modifier_word(u: Seq<char>) -> bool {
    u == "CTRL"@ || u == "CONTROL"@ || u == "ALT"@ || u == "SHIFT"@ || u == "WIN"@ || u == "WINDOWS"@
}

/// No key has a name that is the word for a modifier.
pub proof fn lemma_key_name_no_modifier(vk: u32)
    ensures
        !is_modifier_word(upper(key_name(vk))),
{
    let name = key_name(vk);
    let u = upper(name);
    reveal_strlit("CTRL");
    reveal_strlit("CONTROL");
    reveal_strlit("ALT");
    reveal_strlit("SHIFT");
    reveal_strlit("WIN");
    reveal_strlit("WINDOWS");
    if letter_vk(vk) || digit_vk(vk) {
        assert(u.len() == 1);
    } else if function_vk(vk) {
        assert(u.first() == 'F');
    } else if special_name(vk) is Some {
        lemma_special_name(vk);
        lemma_upper_names();
    } else {
        reveal_strlit("VK");
        assert(u[0] == 'V');
    }
}

/// Every key that a bind can be recorded on has a name of its own and is no modifier.
pub proof fn law_bindable_keys_are_nameable(key: Key)
    ensures
        bind_vk(key) matches Some(vk) ==> nameable(vk) && !modifier_vk(vk),
        modifier_key(key) ==> bind_vk(key) is None,
{
}

/// No key has an empty name.
pub proof fn lemma_no_empty_name()
    ensures
        named_vk(Seq::empty()) is None,
{
    let e = Seq::<char>::empty();
    lemma_upper_names();
    assert(upper(trimmed(e)) =~= e);
}

/// The case of a name does not matter.
pub proof fn law_case_of_a_key_name_does_not_matter(s: Seq<char>)
    ensures
        named_vk(upper(s)) == named_vk(s),
{
    lemma_upper_trimmed(s);
    lemma_upper_twice(trimmed(s));
}

/// The codes of the letters, the digits and the function keys, and those of the keys that only
/// modify others, are those of the system.
pub proof fn law_codes_of_the_system(vk: u32)
    ensures
        letter_vk(vk) == (65 <= vk <= 90),
        digit_vk(vk) == (48 <= vk <= 57),
        function_vk(vk) == (112 <= vk <= 135),
        modifier_vk(vk) == (16 <= vk <= 18 || 91 <= vk <= 92 || 160 <= vk <= 165),
        VK_SHIFT == 16,
        VK_CONTROL == 17,
        VK_MENU == 18,
        VK_ESCAPE == 27,
        VK_LWIN == 91,
        VK_RWIN == 92,
        VK_F1 == 112,
{
}

/// A letter and a digit are named by the character with their code, and the function keys are
/// counted from one.
pub proof fn law_names_of_letters_digits_and_function_keys(vk: u32)
    ensures
        65 <= vk <= 90 || 48 <= vk <= 57 ==> key_name(vk).len() == 1 && key_name(vk)[0] as u32
            == vk,
        112 <= vk <= 135 ==> key_name(vk) == seq!['F'] + decimal((vk - 111) as nat),
{
}

/// A key without a name of its own goes by its code.
pub proof fn law_nameless_keys_go_by_their_code(vk: u32)
    requires
        named_vk(key_name(vk)) is None,
    ensures
        key_name(vk) == "VK"@ + decimal(vk as nat),
{
    law_key_name_reads_back(vk);
}

/// No two keys have the same name.
pub proof fn law_key_names_differ(a: u32, b: u32)
    requires
        a != b,
    ensures
        key_name(a) != key_name(b),
{
    law_key_name_reads_back(a);
    law_key_name_reads_back(b);
    if !nameable(a) && !nameable(b) && key_name(a) == key_name(b) {
        let x = decimal(a as nat);
        let y = decimal(b as nat);
        reveal_strlit("VK");
        lemma_decimal_value(a as nat);
        lemma_decimal_value(b as nat);
        assert(("VK"@ + x).skip(2) =~= x);
        assert(("VK"@ + y).skip(2) =~= y);
    }
}

/// What names a key names one that has a name of its own, and none that only modifies others.
pub proof fn law_named_keys_are_no_modifiers(s: Seq<char>)
    ensures
        named_vk(s) matches Some(vk) ==> !(16 <= vk <= 18 || 91 <= vk <= 92 || 160 <= vk <= 165),
        named_vk(s) matches Some(vk) ==> !modifier_vk(vk) && nameable(vk),
{
}

/// A single letter or digit is the name of the key with its code, in either case.
pub proof fn law_a_character_names_its_key(c: char)
    ensures
        '0' <= c <= '9' || 'A' <= c <= 'Z' ==> named_vk(seq![c]) == Some(c as u32),
        'a' <= c <= 'z' ==> named_vk(seq![c]) == Some((c as u32 - 32) as u32),
{
    assert(upper(seq![c]) =~= seq![upper_char(c)]);
    if '0' <= c <= '9' || 'A' <= c <= 'Z' || 'a' <= c <= 'z' {
        assert(trimmed(seq![c]) == seq![c]);
    }
}

/// `F` and a number from one to twenty-four name a function key, whatever the zeros in front of
/// the number; `F` and any other number name none.
pub proof fn law_a_number_names_its_function_key(digits: Seq<char>)
    requires
        digits.len() > 0,
        all_digits(digits),
    ensures
        named_vk(seq!['F'] + digits) == (if 1 <= digits_value(digits) <= 24 {
            Some((111 + digits_value(digits)) as u32)
        } else {
            None
        }),
{
    let s = seq!['F'] + digits;
    lemma_digits_word(digits);
    assert(is_digit(digits[0]));
    assert(is_digit(digits[digits.len() - 1]));
    assert(s.last() == digits[digits.len() - 1]);
    assert(trimmed(s) == s);
    assert(upper(s) =~= seq!['F'] + upper(digits));
    assert(upper(s).drop_first() =~= digits);
    lemma_upper_names();
    assert(upper(s)[0] == 'F');
}

/// What is printed on a key that a bind can use, in the words that binds are written with. Two
/// characters of one key share its name.
pub open spec fn legend(key: Key) -> Option<Seq<char>> {
    match key {
        Key::A => Some(seq!['A']),
        Key::B => Some(seq!['B']),
        Key::C => Some(seq!['C']),
        Key::D => Some(seq!['D']),
        Key::E => Some(seq!['E']),
        Key::F => Some(seq!['F']),
        Key::G => Some(seq!['G']),
        Key::H => Some(seq!['H']),
        Key::I => Some(seq!['I']),
        Key::J => Some(seq!['J']),
        Key::K => Some(seq!['K']),
        Key::L => Some(seq!['L']),
        Key::M => Some(seq!['M']),
        Key::N => Some(seq!['N']),
        Key::O => Some(seq!['O']),
        Key::P => Some(seq!['P']),
        Key::Q => Some(seq!['Q']),
        Key::R => Some(seq!['R']),
        Key::S => Some(seq!['S']),
        Key::T => Some(seq!['T']),
        Key::U => Some(seq!['U']),
        Key::V => Some(seq!['V']),
        Key::W => Some(seq!['W']),
        Key::X => Some(seq!['X']),
        Key::Y => Some(seq!['Y']),
        Key::Z => Some(seq!['Z']),
        Key::Num0 => Some(seq!['0']),
        Key::Num1 => Some(seq!['1']),
        Key::Num2 => Some(seq!['2']),
        Key::Num3 => Some(seq!['3']),
        Key::Num4 => Some(seq!['4']),
        Key::Num5 => Some(seq!['5']),
        Key::Num6 => Some(seq!['6']),
        Key::Num7 => Some(seq!['7']),
        Key::Num8 => Some(seq!['8']),
        Key::Num9 => Some(seq!['9']),
        Key::F1 => Some(seq!['F'] + decimal(1)),
        Key::F2 => Some(seq!['F'] + decimal(2)),
        Key::F3 => Some(seq!['F'] + decimal(3)),
        Key::F4 => Some(seq!['F'] + decimal(4)),
        Key::F5 => Some(seq!['F'] + decimal(5)),
        Key::F6 => Some(seq!['F'] + decimal(6)),
        Key::F7 => Some(seq!['F'] + decimal(7)),
        Key::F8 => Some(seq!['F'] + decimal(8)),
        Key::F9 => Some(seq!['F'] + decimal(9)),
        Key::F10 => Some(seq!['F'] + decimal(10)),
        Key::F11 => Some(seq!['F'] + decimal(11)),
        Key::F12 => Some(seq!['F'] + decimal(12)),
        Key::F13 => Some(seq!['F'] + decimal(13)),
        Key::F14 => Some(seq!['F'] + decimal(14)),
        Key::F15 => Some(seq!['F'] + decimal(15)),
        Key::F16 => Some(seq!['F'] + decimal(16)),
        Key::F17 => Some(seq!['F'] + decimal(17)),
        Key::F18 => Some(seq!['F'] + decimal(18)),
        Key::F19 => Some(seq!['F'] + decimal(19)),
        Key::F20 => Some(seq!['F'] + decimal(20)),
        Key::F21 => Some(seq!['F'] + decimal(21)),
        Key::F22 => Some(seq!['F'] + decimal(22)),
        Key::F23 => Some(seq!['F'] + decimal(23)),
        Key::F24 => Some(seq!['F'] + decimal(24)),
        Key::Escape => Some("Esc"@),
        Key::Space => Some("Space"@),
        Key::Tab => Some("Tab"@),
        Key::Enter => Some("Enter"@),
        Key::Backspace => Some("Backspace"@),
        Key::Insert => Some("Insert"@),
        Key::Delete => Some("Delete"@),
        Key::Home => Some("Home"@),
        Key::End => Some("End"@),
        Key::PageUp => Some("PageUp"@),
        Key::PageDown => Some("PageDown"@),
        Key::ArrowLeft => Some("Left"@),
        Key::ArrowUp => Some("Up"@),
        Key::ArrowRight => Some("Right"@),
        Key::ArrowDown => Some("Down"@),
        Key::Semicolon => Some("Semicolon"@),
        Key::Plus => Some("Plus"@),
        Key::Comma => Some("Comma"@),
        Key::Minus => Some("Minus"@),
        Key::Period => Some("Period"@),
        Key::Slash | Key::Questionmark => Some("Slash"@),
        Key::Backtick => Some("Backtick"@),
        Key::OpenBracket | Key::OpenCurlyBracket => Some("OpenBracket"@),
        Key::Backslash | Key::Pipe => Some("Backslash"@),
        Key::CloseBracket | Key::CloseCurlyBracket => Some("CloseBracket"@),
        Key::Quote => Some("Quote"@),
        _ => None,
    }
}

/// A bind on a key is shown by what is printed on the key, and a bind can use just the keys
/// with such a print. The others only modify keys, but for those that nothing is known of.
pub proof fn law_a_bind_shows_its_key(key: Key)
    ensures
        bind_vk(key) is Some == legend(key) is Some,
        bind_vk(key) matches Some(vk) ==> key_name(vk) == legend(key)->0,
        modifier_key(key) == (legend(key) is None && key != Key::Other),
{
}

/// A key that a bind can use is found by what is printed on it.
pub proof fn law_a_key_is_found_by_its_legend(key: Key)
    requires
        legend(key) is Some,
    ensures
        named_vk(legend(key)->0) == bind_vk(key),
{
    law_a_bind_shows_its_key(key);
    law_bindable_keys_are_nameable(key);
    law_key_name_reads_back(bind_vk(key)->0);
}

/// The names of the special keys in upper case.
proof fn lemma_names_in_upper_case()
    ensures
        upper("Esc"@) == "ESC"@,
        upper("Space"@) == "SPACE"@,
        upper("Tab"@) == "TAB"@,
        upper("Enter"@) == "ENTER"@,
        upper("Backspace"@) == "BACKSPACE"@,
        upper("Insert"@) == "INSERT"@,
        upper("Delete"@) == "DELETE"@,
        upper("Home"@) == "HOME"@,
        upper("End"@) == "END"@,
        upper("PageUp"@) == "PAGEUP"@,
        upper("PageDown"@) == "PAGEDOWN"@,
        upper("Left"@) == "LEFT"@,
        upper("Up"@) == "UP"@,
        upper("Right"@) == "RIGHT"@,
        upper("Down"@) == "DOWN"@,
        upper("Semicolon"@) == "SEMICOLON"@,
        upper("Plus"@) == "PLUS"@,
        upper("Comma"@) == "COMMA"@,
        upper("Minus"@) == "MINUS"@,
        upper("Period"@) == "PERIOD"@,
        upper("Slash"@) == "SLASH"@,
        upper("Backtick"@) == "BACKTICK"@,
        upper("OpenBracket"@) == "OPENBRACKET"@,
        upper("Backslash"@) == "BACKSLASH"@,
        upper("CloseBracket"@) == "CLOSEBRACKET"@,
        upper("Quote"@) == "QUOTE"@,
{
    lemma_upper_names();
    reveal_strlit("Esc");
    assert(upper("Esc"@) =~= "ESC"@);
    reveal_strlit("Space");
    assert(upper("Space"@) =~= "SPACE"@);
    reveal_strlit("Tab");
    assert(upper("Tab"@) =~= "TAB"@);
    reveal_strlit("Enter");
    assert(upper("Enter"@) =~= "ENTER"@);
    reveal_strlit("Backspace");
    assert(upper("Backspace"@) =~= "BACKSPACE"@);
    reveal_strlit("Insert");
    assert(upper("Insert"@) =~= "INSERT"@);
    reveal_strlit("Delete");
    assert(upper("Delete"@) =~= "DELETE"@);
    reveal_strlit("Home");
    assert(upper("Home"@) =~= "HOME"@);
    reveal_strlit("End");
    assert(upper("End"@) =~= "END"@);
    reveal_strlit("PageUp");
    assert(upper("PageUp"@) =~= "PAGEUP"@);
    reveal_strlit("PageDown");
    assert(upper("PageDown"@) =~= "PAGEDOWN"@);
    reveal_strlit("Left");
    assert(upper("Left"@) =~= "LEFT"@);
    reveal_strlit("Up");
    assert(upper("Up"@) =~= "UP"@);
    reveal_strlit("Right");
    assert(upper("Right"@) =~= "RIGHT"@);
    reveal_strlit("Down");
    assert(upper("Down"@) =~= "DOWN"@);
    reveal_strlit("Semicolon");
    assert(upper("Semicolon"@) =~= "SEMICOLON"@);
    reveal_strlit("Plus");
    assert(upper("Plus"@) =~= "PLUS"@);
    reveal_strlit("Comma");
    assert(upper("Comma"@) =~= "COMMA"@);
    reveal_strlit("Minus");
    assert(upper("Minus"@) =~= "MINUS"@);
    reveal_strlit("Period");
    assert(upper("Period"@) =~= "PERIOD"@);
    reveal_strlit("Slash");
    assert(upper("Slash"@) =~= "SLASH"@);
    reveal_strlit("Backtick");
    assert(upper("Backtick"@) =~= "BACKTICK"@);
    reveal_strlit("OpenBracket");
    assert(upper("OpenBracket"@) =~= "OPENBRACKET"@);
    reveal_strlit("Backslash");
    assert(upper("Backslash"@) =~= "BACKSLASH"@);
    reveal_strlit("CloseBracket");
    assert(upper("CloseBracket"@) =~= "CLOSEBRACKET"@);
    reveal_strlit("Quote");
    assert(upper("Quote"@) =~= "QUOTE"@);
}

/// Some keys have a second name, whatever its case and the white space around it.
pub proof fn law_second_names(s: Seq<char>)
    ensures
        upper(trimmed(s)) == "ESCAPE"@ ==> named_vk(s) == Some(27u32),
        upper(trimmed(s)) == "RETURN"@ ==> named_vk(s) == Some(13u32),
        upper(trimmed(s)) == "INS"@ ==> named_vk(s) == Some(45u32),
        upper(trimmed(s)) == "DEL"@ ==> named_vk(s) == Some(46u32),
        upper(trimmed(s)) == "PGUP"@ ==> named_vk(s) == Some(33u32),
        upper(trimmed(s)) == "PGDN"@ ==> named_vk(s) == Some(34u32),
{
    lemma_upper_names();
}

/// Nothing names a key but its name, its second name where it has one, and, for a function key,
/// its number in another form.
pub proof fn law_nothing_else_names_a_key(s: Seq<char>)
    ensures
        named_vk(s) matches Some(vk) ==> {
            let u = upper(trimmed(s));
            ||| u == upper(key_name(vk))
            ||| 112 <= vk <= 135 && u.len() > 0 && u[0] == 'F' && number(
                u.drop_first(),
                u32::MAX as nat,
            ) == Some((vk - 111) as nat)
            ||| vk == 27 && u == "ESCAPE"@
            ||| vk == 13 && u == "RETURN"@
            ||| vk == 45 && u == "INS"@
            ||| vk == 46 && u == "DEL"@
            ||| vk == 33 && u == "PGUP"@
            ||| vk == 34 && u == "PGDN"@
        },
{
    let u = upper(trimmed(s));
    lemma_names_in_upper_case();
    if u.len() == 1 && names_itself(u.first()) {
        let vk = u.first() as u32;
        assert(upper(key_name(vk)) =~= u);
    }
}

} // verus!
