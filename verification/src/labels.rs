use vstd::prelude::*;
use crate::key::VirtualKey;
use crate::text::{decimal, decimal_string, str_eq};
use crate::keycodes::{digit_keys, letter_keys, numpad_digit_keys};

verus! {

/// The name of a key's variant, as `{:?}` prints it; an unknown key prints
/// as `Unknown(code)`.
#[verifier::opaque]
pub open spec fn variant_name(key: VirtualKey) -> Seq<char> {
    match key {
        VirtualKey::A => "A"@,
        VirtualKey::B => "B"@,
        VirtualKey::C => "C"@,
        VirtualKey::D => "D"@,
        VirtualKey::E => "E"@,
        VirtualKey::F => "F"@,
        VirtualKey::G => "G"@,
        VirtualKey::H => "H"@,
        VirtualKey::I => "I"@,
        VirtualKey::J => "J"@,
        VirtualKey::K => "K"@,
        VirtualKey::L => "L"@,
        VirtualKey::M => "M"@,
        VirtualKey::N => "N"@,
        VirtualKey::O => "O"@,
        VirtualKey::P => "P"@,
        VirtualKey::Q => "Q"@,
        VirtualKey::R => "R"@,
        VirtualKey::S => "S"@,
        VirtualKey::T => "T"@,
        VirtualKey::U => "U"@,
        VirtualKey::V => "V"@,
        VirtualKey::W => "W"@,
        VirtualKey::X => "X"@,
        VirtualKey::Y => "Y"@,
        VirtualKey::Z => "Z"@,
        VirtualKey::Key0 => "Key0"@,
        VirtualKey::Key1 => "Key1"@,
        VirtualKey::Key2 => "Key2"@,
        VirtualKey::Key3 => "Key3"@,
        VirtualKey::Key4 => "Key4"@,
        VirtualKey::Key5 => "Key5"@,
        VirtualKey::Key6 => "Key6"@,
        VirtualKey::Key7 => "Key7"@,
        VirtualKey::Key8 => "Key8"@,
        VirtualKey::Key9 => "Key9"@,
        VirtualKey::F1 => "F1"@,
        VirtualKey::F2 => "F2"@,
        VirtualKey::F3 => "F3"@,
        VirtualKey::F4 => "F4"@,
        VirtualKey::F5 => "F5"@,
        VirtualKey::F6 => "F6"@,
        VirtualKey::F7 => "F7"@,
        VirtualKey::F8 => "F8"@,
        VirtualKey::F9 => "F9"@,
        VirtualKey::F10 => "F10"@,
        VirtualKey::F11 => "F11"@,
        VirtualKey::F12 => "F12"@,
        VirtualKey::F13 => "F13"@,
        VirtualKey::F14 => "F14"@,
        VirtualKey::F15 => "F15"@,
        VirtualKey::F16 => "F16"@,
        VirtualKey::F17 => "F17"@,
        VirtualKey::F18 => "F18"@,
        VirtualKey::F19 => "F19"@,
        VirtualKey::Numpad0 => "Numpad0"@,
        VirtualKey::Numpad1 => "Numpad1"@,
        VirtualKey::Numpad2 => "Numpad2"@,
        VirtualKey::Numpad3 => "Numpad3"@,
        VirtualKey::Numpad4 => "Numpad4"@,
        VirtualKey::Numpad5 => "Numpad5"@,
        VirtualKey::Numpad6 => "Numpad6"@,
        VirtualKey::Numpad7 => "Numpad7"@,
        VirtualKey::Numpad8 => "Numpad8"@,
        VirtualKey::Numpad9 => "Numpad9"@,
        VirtualKey::NumpadAdd => "NumpadAdd"@,
        VirtualKey::NumpadSubtract => "NumpadSubtract"@,
        VirtualKey::NumpadMultiply => "NumpadMultiply"@,
        VirtualKey::NumpadDivide => "NumpadDivide"@,
        VirtualKey::NumpadEnter => "NumpadEnter"@,
        VirtualKey::NumpadDecimal => "NumpadDecimal"@,
        VirtualKey::NumpadEqual => "NumpadEqual"@,
        VirtualKey::Space => "Space"@,
        VirtualKey::Enter => "Enter"@,
        VirtualKey::Escape => "Escape"@,
        VirtualKey::Tab => "Tab"@,
        VirtualKey::Backspace => "Backspace"@,
        VirtualKey::Delete => "Delete"@,
        VirtualKey::Insert => "Insert"@,
        VirtualKey::Home => "Home"@,
        VirtualKey::End => "End"@,
        VirtualKey::PageUp => "PageUp"@,
        VirtualKey::PageDown => "PageDown"@,
        VirtualKey::Pause => "Pause"@,
        VirtualKey::Shift => "Shift"@,
        VirtualKey::Control => "Control"@,
        VirtualKey::Alt => "Alt"@,
        VirtualKey::Command => "Command"@,
        VirtualKey::CapsLock => "CapsLock"@,
        VirtualKey::ScrollLock => "ScrollLock"@,
        VirtualKey::NumLock => "NumLock"@,
        VirtualKey::LWin => "LWin"@,
        VirtualKey::RWin => "RWin"@,
        VirtualKey::Up => "Up"@,
        VirtualKey::Down => "Down"@,
        VirtualKey::Left => "Left"@,
        VirtualKey::Right => "Right"@,
        VirtualKey::Minus => "Minus"@,
        VirtualKey::Equal => "Equal"@,
        VirtualKey::LeftBracket => "LeftBracket"@,
        VirtualKey::RightBracket => "RightBracket"@,
        VirtualKey::Backslash => "Backslash"@,
        VirtualKey::Semicolon => "Semicolon"@,
        VirtualKey::Quote => "Quote"@,
        VirtualKey::Comma => "Comma"@,
        VirtualKey::Period => "Period"@,
        VirtualKey::Slash => "Slash"@,
        VirtualKey::VolumeUp => "VolumeUp"@,
        VirtualKey::VolumeDown => "VolumeDown"@,
        VirtualKey::Mute => "Mute"@,
        VirtualKey::Unknown(code) => "Unknown("@ + decimal(code as nat) + ")"@,
    }
}

/// The name of a key's variant, as `{:?}` prints it.
pub fn debug_name(key: VirtualKey) -> (r: String)
    ensures
        r@ == variant_name(key),
{
    reveal(variant_name);
    match key {
        VirtualKey::A => String::from_str("A"),
        VirtualKey::B => String::from_str("B"),
        VirtualKey::C => String::from_str("C"),
        VirtualKey::D => String::from_str("D"),
        VirtualKey::E => String::from_str("E"),
        VirtualKey::F => String::from_str("F"),
        VirtualKey::G => String::from_str("G"),
        VirtualKey::H => String::from_str("H"),
        VirtualKey::I => String::from_str("I"),
        VirtualKey::J => String::from_str("J"),
        VirtualKey::K => String::from_str("K"),
        VirtualKey::L => String::from_str("L"),
        VirtualKey::M => String::from_str("M"),
        VirtualKey::N => String::from_str("N"),
        VirtualKey::O => String::from_str("O"),
        VirtualKey::P => String::from_str("P"),
        VirtualKey::Q => String::from_str("Q"),
        VirtualKey::R => String::from_str("R"),
        VirtualKey::S => String::from_str("S"),
        VirtualKey::T => String::from_str("T"),
        VirtualKey::U => String::from_str("U"),
        VirtualKey::V => String::from_str("V"),
        VirtualKey::W => String::from_str("W"),
        VirtualKey::X => String::from_str("X"),
        VirtualKey::Y => String::from_str("Y"),
        VirtualKey::Z => String::from_str("Z"),
        VirtualKey::Key0 => String::from_str("Key0"),
        VirtualKey::Key1 => String::from_str("Key1"),
        VirtualKey::Key2 => String::from_str("Key2"),
        VirtualKey::Key3 => String::from_str("Key3"),
        VirtualKey::Key4 => String::from_str("Key4"),
        VirtualKey::Key5 => String::from_str("Key5"),
        VirtualKey::Key6 => String::from_str("Key6"),
        VirtualKey::Key7 => String::from_str("Key7"),
        VirtualKey::Key8 => String::from_str("Key8"),
        VirtualKey::Key9 => String::from_str("Key9"),
        VirtualKey::F1 => String::from_str("F1"),
        VirtualKey::F2 => String::from_str("F2"),
        VirtualKey::F3 => String::from_str("F3"),
        VirtualKey::F4 => String::from_str("F4"),
        VirtualKey::F5 => String::from_str("F5"),
        VirtualKey::F6 => String::from_str("F6"),
        VirtualKey::F7 => String::from_str("F7"),
        VirtualKey::F8 => String::from_str("F8"),
        VirtualKey::F9 => String::from_str("F9"),
        VirtualKey::F10 => String::from_str("F10"),
        VirtualKey::F11 => String::from_str("F11"),
        VirtualKey::F12 => String::from_str("F12"),
        VirtualKey::F13 => String::from_str("F13"),
        VirtualKey::F14 => String::from_str("F14"),
        VirtualKey::F15 => String::from_str("F15"),
        VirtualKey::F16 => String::from_str("F16"),
        VirtualKey::F17 => String::from_str("F17"),
        VirtualKey::F18 => String::from_str("F18"),
        VirtualKey::F19 => String::from_str("F19"),
        VirtualKey::Numpad0 => String::from_str("Numpad0"),
        VirtualKey::Numpad1 => String::from_str("Numpad1"),
        VirtualKey::Numpad2 => String::from_str("Numpad2"),
        VirtualKey::Numpad3 => String::from_str("Numpad3"),
        VirtualKey::Numpad4 => String::from_str("Numpad4"),
        VirtualKey::Numpad5 => String::from_str("Numpad5"),
        VirtualKey::Numpad6 => String::from_str("Numpad6"),
        VirtualKey::Numpad7 => String::from_str("Numpad7"),
        VirtualKey::Numpad8 => String::from_str("Numpad8"),
        VirtualKey::Numpad9 => String::from_str("Numpad9"),
        VirtualKey::NumpadAdd => String::from_str("NumpadAdd"),
        VirtualKey::NumpadSubtract => String::from_str("NumpadSubtract"),
        VirtualKey::NumpadMultiply => String::from_str("NumpadMultiply"),
        VirtualKey::NumpadDivide => String::from_str("NumpadDivide"),
        VirtualKey::NumpadEnter => String::from_str("NumpadEnter"),
        VirtualKey::NumpadDecimal => String::from_str("NumpadDecimal"),
        VirtualKey::NumpadEqual => String::from_str("NumpadEqual"),
        VirtualKey::Space => String::from_str("Space"),
        VirtualKey::Enter => String::from_str("Enter"),
        VirtualKey::Escape => String::from_str("Escape"),
        VirtualKey::Tab => String::from_str("Tab"),
        VirtualKey::Backspace => String::from_str("Backspace"),
        VirtualKey::Delete => String::from_str("Delete"),
        VirtualKey::Insert => String::from_str("Insert"),
        VirtualKey::Home => String::from_str("Home"),
        VirtualKey::End => String::from_str("End"),
        VirtualKey::PageUp => String::from_str("PageUp"),
        VirtualKey::PageDown => String::from_str("PageDown"),
        VirtualKey::Pause => String::from_str("Pause"),
        VirtualKey::Shift => String::from_str("Shift"),
        VirtualKey::Control => String::from_str("Control"),
        VirtualKey::Alt => String::from_str("Alt"),
        VirtualKey::Command => String::from_str("Command"),
        VirtualKey::CapsLock => String::from_str("CapsLock"),
        VirtualKey::ScrollLock => String::from_str("ScrollLock"),
        VirtualKey::NumLock => String::from_str("NumLock"),
        VirtualKey::LWin => String::from_str("LWin"),
        VirtualKey::RWin => String::from_str("RWin"),
        VirtualKey::Up => String::from_str("Up"),
        VirtualKey::Down => String::from_str("Down"),
        VirtualKey::Left => String::from_str("Left"),
        VirtualKey::Right => String::from_str("Right"),
        VirtualKey::Minus => String::from_str("Minus"),
        VirtualKey::Equal => String::from_str("Equal"),
        VirtualKey::LeftBracket => String::from_str("LeftBracket"),
        VirtualKey::RightBracket => String::from_str("RightBracket"),
        VirtualKey::Backslash => String::from_str("Backslash"),
        VirtualKey::Semicolon => String::from_str("Semicolon"),
        VirtualKey::Quote => String::from_str("Quote"),
        VirtualKey::Comma => String::from_str("Comma"),
        VirtualKey::Period => String::from_str("Period"),
        VirtualKey::Slash => String::from_str("Slash"),
        VirtualKey::VolumeUp => String::from_str("VolumeUp"),
        VirtualKey::VolumeDown => String::from_str("VolumeDown"),
        VirtualKey::Mute => String::from_str("Mute"),
        VirtualKey::Unknown(code) => {
            let mut s = String::from_str("Unknown(");
            let digits = decimal_string(code as u64);
            s.append(digits.as_str());
            s.append(")");
            s
        },
    }
}

/// The label of a key in the mapping tables: digits and numpad keys are
/// shortened, Escape is "Esc", every other key shows its variant name.
pub open spec fn key_label(key: VirtualKey) -> Seq<char> {
    match key {
        VirtualKey::Key0 => "0"@,
        VirtualKey::Key1 => "1"@,
        VirtualKey::Key2 => "2"@,
        VirtualKey::Key3 => "3"@,
        VirtualKey::Key4 => "4"@,
        VirtualKey::Key5 => "5"@,
        VirtualKey::Key6 => "6"@,
        VirtualKey::Key7 => "7"@,
        VirtualKey::Key8 => "8"@,
        VirtualKey::Key9 => "9"@,
        VirtualKey::Numpad0 => "Num0"@,
        VirtualKey::Numpad1 => "Num1"@,
        VirtualKey::Numpad2 => "Num2"@,
        VirtualKey::Numpad3 => "Num3"@,
        VirtualKey::Numpad4 => "Num4"@,
        VirtualKey::Numpad5 => "Num5"@,
        VirtualKey::Numpad6 => "Num6"@,
        VirtualKey::Numpad7 => "Num7"@,
        VirtualKey::Numpad8 => "Num8"@,
        VirtualKey::Numpad9 => "Num9"@,
        VirtualKey::Escape => "Esc"@,
        _ => variant_name(key),
    }
}

/// The label of a key in the mapping tables.
pub fn format_key(key: &VirtualKey) -> (r: String)
    ensures
        r@ == key_label(*key),
{
    reveal(variant_name);
    match *key {
        VirtualKey::Key0 => String::from_str("0"),
        VirtualKey::Key1 => String::from_str("1"),
        VirtualKey::Key2 => String::from_str("2"),
        VirtualKey::Key3 => String::from_str("3"),
        VirtualKey::Key4 => String::from_str("4"),
        VirtualKey::Key5 => String::from_str("5"),
        VirtualKey::Key6 => String::from_str("6"),
        VirtualKey::Key7 => String::from_str("7"),
        VirtualKey::Key8 => String::from_str("8"),
        VirtualKey::Key9 => String::from_str("9"),
        VirtualKey::Numpad0 => String::from_str("Num0"),
        VirtualKey::Numpad1 => String::from_str("Num1"),
        VirtualKey::Numpad2 => String::from_str("Num2"),
        VirtualKey::Numpad3 => String::from_str("Num3"),
        VirtualKey::Numpad4 => String::from_str("Num4"),
        VirtualKey::Numpad5 => String::from_str("Num5"),
        VirtualKey::Numpad6 => String::from_str("Num6"),
        VirtualKey::Numpad7 => String::from_str("Num7"),
        VirtualKey::Numpad8 => String::from_str("Num8"),
        VirtualKey::Numpad9 => String::from_str("Num9"),
        VirtualKey::Escape => String::from_str("Esc"),
        _ => debug_name(*key),
    }
}

/// The key named by a lowercase key name: letters, digits, "space",
/// "enter", "escape" and "tab".
pub open spec fn key_of_name(name: Seq<char>) -> Option<VirtualKey> {
    if name == "a"@ {
        Some(VirtualKey::A)
    } else if name == "b"@ {
        Some(VirtualKey::B)
    } else if name == "c"@ {
        Some(VirtualKey::C)
    } else if name == "d"@ {
        Some(VirtualKey::D)
    } else if name == "e"@ {
        Some(VirtualKey::E)
    } else if name == "f"@ {
        Some(VirtualKey::F)
    } else if name == "g"@ {
        Some(VirtualKey::G)
    } else if name == "h"@ {
        Some(VirtualKey::H)
    } else if name == "i"@ {
        Some(VirtualKey::I)
    } else if name == "j"@ {
        Some(VirtualKey::J)
    } else if name == "k"@ {
        Some(VirtualKey::K)
    } else if name == "l"@ {
        Some(VirtualKey::L)
    } else if name == "m"@ {
        Some(VirtualKey::M)
    } else if name == "n"@ {
        Some(VirtualKey::N)
    } else if name == "o"@ {
        Some(VirtualKey::O)
    } else if name == "p"@ {
        Some(VirtualKey::P)
    } else if name == "q"@ {
        Some(VirtualKey::Q)
    } else if name == "r"@ {
        Some(VirtualKey::R)
    } else if name == "s"@ {
        Some(VirtualKey::S)
    } else if name == "t"@ {
        Some(VirtualKey::T)
    } else if name == "u"@ {
        Some(VirtualKey::U)
    } else if name == "v"@ {
        Some(VirtualKey::V)
    } else if name == "w"@ {
        Some(VirtualKey::W)
    } else if name == "x"@ {
        Some(VirtualKey::X)
    } else if name == "y"@ {
        Some(VirtualKey::Y)
    } else if name == "z"@ {
        Some(VirtualKey::Z)
    } else if name == "0"@ {
        Some(VirtualKey::Key0)
    } else if name == "1"@ {
        Some(VirtualKey::Key1)
    } else if name == "2"@ {
        Some(VirtualKey::Key2)
    } else if name == "3"@ {
        Some(VirtualKey::Key3)
    } else if name == "4"@ {
        Some(VirtualKey::Key4)
    } else if name == "5"@ {
        Some(VirtualKey::Key5)
    } else if name == "6"@ {
        Some(VirtualKey::Key6)
    } else if name == "7"@ {
        Some(VirtualKey::Key7)
    } else if name == "8"@ {
        Some(VirtualKey::Key8)
    } else if name == "9"@ {
        Some(VirtualKey::Key9)
    } else if name == "space"@ {
        Some(VirtualKey::Space)
    } else if name == "enter"@ {
        Some(VirtualKey::Enter)
    } else if name == "escape"@ {
        Some(VirtualKey::Escape)
    } else if name == "tab"@ {
        Some(VirtualKey::Tab)
    } else {
        None
    }
}

/// The key named by a lowercase key name.
pub fn parse_key_name(name: &str) -> (r: Option<VirtualKey>)
    ensures
        r == key_of_name(name@),
{
    if str_eq(name, "a") {
        return Some(VirtualKey::A);
    }
    if str_eq(name, "b") {
        return Some(VirtualKey::B);
    }
    if str_eq(name, "c") {
        return Some(VirtualKey::C);
    }
    if str_eq(name, "d") {
        return Some(VirtualKey::D);
    }
    if str_eq(name, "e") {
        return Some(VirtualKey::E);
    }
    if str_eq(name, "f") {
        return Some(VirtualKey::F);
    }
    if str_eq(name, "g") {
        return Some(VirtualKey::G);
    }
    if str_eq(name, "h") {
        return Some(VirtualKey::H);
    }
    if str_eq(name, "i") {
        return Some(VirtualKey::I);
    }
    if str_eq(name, "j") {
        return Some(VirtualKey::J);
    }
    if str_eq(name, "k") {
        return Some(VirtualKey::K);
    }
    if str_eq(name, "l") {
        return Some(VirtualKey::L);
    }
    if str_eq(name, "m") {
        return Some(VirtualKey::M);
    }
    if str_eq(name, "n") {
        return Some(VirtualKey::N);
    }
    if str_eq(name, "o") {
        return Some(VirtualKey::O);
    }
    if str_eq(name, "p") {
        return Some(VirtualKey::P);
    }
    if str_eq(name, "q") {
        return Some(VirtualKey::Q);
    }
    if str_eq(name, "r") {
        return Some(VirtualKey::R);
    }
    if str_eq(name, "s") {
        return Some(VirtualKey::S);
    }
    if str_eq(name, "t") {
        return Some(VirtualKey::T);
    }
    if str_eq(name, "u") {
        return Some(VirtualKey::U);
    }
    if str_eq(name, "v") {
        return Some(VirtualKey::V);
    }
    if str_eq(name, "w") {
        return Some(VirtualKey::W);
    }
    if str_eq(name, "x") {
        return Some(VirtualKey::X);
    }
    if str_eq(name, "y") {
        return Some(VirtualKey::Y);
    }
    if str_eq(name, "z") {
        return Some(VirtualKey::Z);
    }
    if str_eq(name, "0") {
        return Some(VirtualKey::Key0);
    }
    if str_eq(name, "1") {
        return Some(VirtualKey::Key1);
    }
    if str_eq(name, "2") {
        return Some(VirtualKey::Key2);
    }
    if str_eq(name, "3") {
        return Some(VirtualKey::Key3);
    }
    if str_eq(name, "4") {
        return Some(VirtualKey::Key4);
    }
    if str_eq(name, "5") {
        return Some(VirtualKey::Key5);
    }
    if str_eq(name, "6") {
        return Some(VirtualKey::Key6);
    }
    if str_eq(name, "7") {
        return Some(VirtualKey::Key7);
    }
    if str_eq(name, "8") {
        return Some(VirtualKey::Key8);
    }
    if str_eq(name, "9") {
        return Some(VirtualKey::Key9);
    }
    if str_eq(name, "space") {
        return Some(VirtualKey::Space);
    }
    if str_eq(name, "enter") {
        return Some(VirtualKey::Enter);
    }
    if str_eq(name, "escape") {
        return Some(VirtualKey::Escape);
    }
    if str_eq(name, "tab") {
        return Some(VirtualKey::Tab);
    }
    None
}

/// What `str::to_lowercase` gives for a string (Unicode lowercase mapping).
pub uninterp spec fn lowercase(s: Seq<char>) -> Seq<char>;

/// The lowercase form of a string.
///
/// Calls std's `str::to_lowercase`, whose result depends on the string
/// alone (it applies the Unicode lowercase mapping, without regard to
/// locale); the contract names that result and says nothing more of it.
#[verifier::external_body]
pub(crate) fn to_lowercase(s: &str) -> (r: String)
    ensures
        r@ == lowercase(s@),
{
    s.to_lowercase()
}

/// The key named by a key name from the user interface, in any case.
pub fn parse_key_from_string(key: &str) -> (r: Option<VirtualKey>)
    ensures
        r == key_of_name(lowercase(key@)),
{
    let lower = to_lowercase(key);
    parse_key_name(lower.as_str())
}

/// A single lower-case letter names its letter key.
pub proof fn law_letter_names()
    ensures
        forall|name: Seq<char>, i: int| 0 <= i < 26 && name.len() == 1 && name[0] == (97 + i) as char
            ==> #[trigger] key_of_name(name) == Some(#[trigger] letter_keys()[i]),
{
    reveal_strlit("a");
    reveal_strlit("b");
    reveal_strlit("c");
    reveal_strlit("d");
    reveal_strlit("e");
    reveal_strlit("f");
    reveal_strlit("g");
    reveal_strlit("h");
    reveal_strlit("i");
    reveal_strlit("j");
    reveal_strlit("k");
    reveal_strlit("l");
    reveal_strlit("m");
    reveal_strlit("n");
    reveal_strlit("o");
    reveal_strlit("p");
    reveal_strlit("q");
    reveal_strlit("r");
    reveal_strlit("s");
    reveal_strlit("t");
    reveal_strlit("u");
    reveal_strlit("v");
    reveal_strlit("w");
    reveal_strlit("x");
    reveal_strlit("y");
    reveal_strlit("z");
    assert forall|name: Seq<char>, i: int| 0 <= i < 26 && name.len() == 1 && name[0] == (97 + i) as char
        implies #[trigger] key_of_name(name) == Some(#[trigger] letter_keys()[i]) by {
        if i == 0 {
            assert(name =~= "a"@);
        } else if i == 1 {
            assert(name =~= "b"@);
        } else if i == 2 {
            assert(name =~= "c"@);
        } else if i == 3 {
            assert(name =~= "d"@);
        } else if i == 4 {
            assert(name =~= "e"@);
        } else if i == 5 {
            assert(name =~= "f"@);
        } else if i == 6 {
            assert(name =~= "g"@);
        } else if i == 7 {
            assert(name =~= "h"@);
        } else if i == 8 {
            assert(name =~= "i"@);
        } else if i == 9 {
            assert(name =~= "j"@);
        } else if i == 10 {
            assert(name =~= "k"@);
        } else if i == 11 {
            assert(name =~= "l"@);
        } else if i == 12 {
            assert(name =~= "m"@);
        } else if i == 13 {
            assert(name =~= "n"@);
        } else if i == 14 {
            assert(name =~= "o"@);
        } else if i == 15 {
            assert(name =~= "p"@);
        } else if i == 16 {
            assert(name =~= "q"@);
        } else if i == 17 {
            assert(name =~= "r"@);
        } else if i == 18 {
            assert(name =~= "s"@);
        } else if i == 19 {
            assert(name =~= "t"@);
        } else if i == 20 {
            assert(name =~= "u"@);
        } else if i == 21 {
            assert(name =~= "v"@);
        } else if i == 22 {
            assert(name =~= "w"@);
        } else if i == 23 {
            assert(name =~= "x"@);
        } else if i == 24 {
            assert(name =~= "y"@);
        } else if i == 25 {
            assert(name =~= "z"@);
        }
    }
}

/// A single digit names its digit key.
pub proof fn law_digit_names()
    ensures
        forall|name: Seq<char>, i: int| 0 <= i < 10 && name.len() == 1 && name[0] == (48 + i) as char
            ==> #[trigger] key_of_name(name) == Some(#[trigger] digit_keys()[i]),
{
    reveal_strlit("a");
    reveal_strlit("b");
    reveal_strlit("c");
    reveal_strlit("d");
    reveal_strlit("e");
    reveal_strlit("f");
    reveal_strlit("g");
    reveal_strlit("h");
    reveal_strlit("i");
    reveal_strlit("j");
    reveal_strlit("k");
    reveal_strlit("l");
    reveal_strlit("m");
    reveal_strlit("n");
    reveal_strlit("o");
    reveal_strlit("p");
    reveal_strlit("q");
    reveal_strlit("r");
    reveal_strlit("s");
    reveal_strlit("t");
    reveal_strlit("u");
    reveal_strlit("v");
    reveal_strlit("w");
    reveal_strlit("x");
    reveal_strlit("y");
    reveal_strlit("z");
    reveal_strlit("0");
    reveal_strlit("1");
    reveal_strlit("2");
    reveal_strlit("3");
    reveal_strlit("4");
    reveal_strlit("5");
    reveal_strlit("6");
    reveal_strlit("7");
    reveal_strlit("8");
    reveal_strlit("9");
    assert forall|name: Seq<char>, i: int| 0 <= i < 10 && name.len() == 1 && name[0] == (48 + i) as char
        implies #[trigger] key_of_name(name) == Some(#[trigger] digit_keys()[i]) by {
        if i == 0 {
            assert(name =~= "0"@);
        } else if i == 1 {
            assert(name =~= "1"@);
        } else if i == 2 {
            assert(name =~= "2"@);
        } else if i == 3 {
            assert(name =~= "3"@);
        } else if i == 4 {
            assert(name =~= "4"@);
        } else if i == 5 {
            assert(name =~= "5"@);
        } else if i == 6 {
            assert(name =~= "6"@);
        } else if i == 7 {
            assert(name =~= "7"@);
        } else if i == 8 {
            assert(name =~= "8"@);
        } else if i == 9 {
            assert(name =~= "9"@);
        }
    }
}

/// A letter key is labelled by its upper-case letter, a digit key by its
/// digit, and a numpad digit key by "Num" and its digit.
pub proof fn law_key_labels()
    ensures
        forall|i: int| 0 <= i < 26 ==> key_label(#[trigger] letter_keys()[i]) == seq![(65 + i) as char],
        forall|i: int| 0 <= i < 10 ==> key_label(#[trigger] digit_keys()[i]) == seq![(48 + i) as char],
        forall|i: int| 0 <= i < 10 ==> key_label(#[trigger] numpad_digit_keys()[i]) == "Num"@ + seq![(48 + i) as char],
{
    reveal(variant_name);
    reveal_strlit("A");
    reveal_strlit("B");
    reveal_strlit("C");
    reveal_strlit("D");
    reveal_strlit("E");
    reveal_strlit("F");
    reveal_strlit("G");
    reveal_strlit("H");
    reveal_strlit("I");
    reveal_strlit("J");
    reveal_strlit("K");
    reveal_strlit("L");
    reveal_strlit("M");
    reveal_strlit("N");
    reveal_strlit("O");
    reveal_strlit("P");
    reveal_strlit("Q");
    reveal_strlit("R");
    reveal_strlit("S");
    reveal_strlit("T");
    reveal_strlit("U");
    reveal_strlit("V");
    reveal_strlit("W");
    reveal_strlit("X");
    reveal_strlit("Y");
    reveal_strlit("Z");
    reveal_strlit("0");
    reveal_strlit("1");
    reveal_strlit("2");
    reveal_strlit("3");
    reveal_strlit("4");
    reveal_strlit("5");
    reveal_strlit("6");
    reveal_strlit("7");
    reveal_strlit("8");
    reveal_strlit("9");
    reveal_strlit("Num0");
    reveal_strlit("Num1");
    reveal_strlit("Num2");
    reveal_strlit("Num3");
    reveal_strlit("Num4");
    reveal_strlit("Num5");
    reveal_strlit("Num6");
    reveal_strlit("Num7");
    reveal_strlit("Num8");
    reveal_strlit("Num9");
    reveal_strlit("Num");
    assert forall|i: int| 0 <= i < 26 implies key_label(#[trigger] letter_keys()[i]) == seq![(65 + i) as char] by {
        if i == 0 {
        } else if i == 1 {
        } else if i == 2 {
        } else if i == 3 {
        } else if i == 4 {
        } else if i == 5 {
        } else if i == 6 {
        } else if i == 7 {
        } else if i == 8 {
        } else if i == 9 {
        } else if i == 10 {
        } else if i == 11 {
        } else if i == 12 {
        } else if i == 13 {
        } else if i == 14 {
        } else if i == 15 {
        } else if i == 16 {
        } else if i == 17 {
        } else if i == 18 {
        } else if i == 19 {
        } else if i == 20 {
        } else if i == 21 {
        } else if i == 22 {
        } else if i == 23 {
        } else if i == 24 {
        } else if i == 25 {
        }
    }
    assert forall|i: int| 0 <= i < 10 implies key_label(#[trigger] digit_keys()[i]) == seq![(48 + i) as char]
        && key_label(numpad_digit_keys()[i]) == "Num"@ + seq![(48 + i) as char] by {
        if i == 0 {
        } else if i == 1 {
        } else if i == 2 {
        } else if i == 3 {
        } else if i == 4 {
        } else if i == 5 {
        } else if i == 6 {
        } else if i == 7 {
        } else if i == 8 {
        } else if i == 9 {
        }
    }
}

} // verus!
