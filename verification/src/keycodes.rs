use vstd::prelude::*;
use crate::event::RawKeyEvent;
use crate::hook::HookResult;
use crate::key::VirtualKey;

verus! {

// ---- macOS: virtual key codes of Carbon's Events.h ----

/// The key of a macOS keyboard event's key code.
pub open spec fn mac_key_of_code(code: u16) -> VirtualKey {
    match code {
        0x00 => VirtualKey::A,
        0x01 => VirtualKey::S,
        0x02 => VirtualKey::D,
        0x03 => VirtualKey::F,
        0x04 => VirtualKey::H,
        0x05 => VirtualKey::G,
        0x06 => VirtualKey::Z,
        0x07 => VirtualKey::X,
        0x08 => VirtualKey::C,
        0x09 => VirtualKey::V,
        0x0B => VirtualKey::B,
        0x0C => VirtualKey::Q,
        0x0D => VirtualKey::W,
        0x0E => VirtualKey::E,
        0x0F => VirtualKey::R,
        0x10 => VirtualKey::Y,
        0x11 => VirtualKey::T,
        0x12 => VirtualKey::Key1,
        0x13 => VirtualKey::Key2,
        0x14 => VirtualKey::Key3,
        0x15 => VirtualKey::Key4,
        0x16 => VirtualKey::Key6,
        0x17 => VirtualKey::Key5,
        0x18 => VirtualKey::Equal,
        0x19 => VirtualKey::Key9,
        0x1A => VirtualKey::Key7,
        0x1B => VirtualKey::Minus,
        0x1C => VirtualKey::Key8,
        0x1D => VirtualKey::Key0,
        0x1E => VirtualKey::RightBracket,
        0x1F => VirtualKey::O,
        0x20 => VirtualKey::U,
        0x21 => VirtualKey::LeftBracket,
        0x22 => VirtualKey::I,
        0x23 => VirtualKey::P,
        0x24 => VirtualKey::Enter,
        0x25 => VirtualKey::L,
        0x26 => VirtualKey::J,
        0x27 => VirtualKey::Quote,
        0x28 => VirtualKey::K,
        0x29 => VirtualKey::Semicolon,
        0x2A => VirtualKey::Backslash,
        0x2B => VirtualKey::Comma,
        0x2C => VirtualKey::Slash,
        0x2D => VirtualKey::N,
        0x2E => VirtualKey::M,
        0x2F => VirtualKey::Period,
        0x30 => VirtualKey::Tab,
        0x31 => VirtualKey::Space,
        0x33 => VirtualKey::Backspace,
        0x35 => VirtualKey::Escape,
        0x37 => VirtualKey::Command,
        0x38 => VirtualKey::Shift,
        0x39 => VirtualKey::CapsLock,
        0x3A => VirtualKey::Alt,
        0x3B => VirtualKey::Control,
        0x41 => VirtualKey::NumpadDecimal,
        0x43 => VirtualKey::NumpadMultiply,
        0x45 => VirtualKey::NumpadAdd,
        0x47 => VirtualKey::NumLock,
        0x4B => VirtualKey::NumpadDivide,
        0x4C => VirtualKey::NumpadEnter,
        0x4E => VirtualKey::NumpadSubtract,
        0x51 => VirtualKey::NumpadEqual,
        0x52 => VirtualKey::Numpad0,
        0x53 => VirtualKey::Numpad1,
        0x54 => VirtualKey::Numpad2,
        0x55 => VirtualKey::Numpad3,
        0x56 => VirtualKey::Numpad4,
        0x57 => VirtualKey::Numpad5,
        0x58 => VirtualKey::Numpad6,
        0x59 => VirtualKey::Numpad7,
        0x5B => VirtualKey::Numpad8,
        0x5C => VirtualKey::Numpad9,
        0x60 => VirtualKey::F5,
        0x61 => VirtualKey::F6,
        0x62 => VirtualKey::F7,
        0x63 => VirtualKey::F3,
        0x64 => VirtualKey::F8,
        0x65 => VirtualKey::F9,
        0x67 => VirtualKey::F11,
        0x69 => VirtualKey::F13,
        0x6A => VirtualKey::F16,
        0x6B => VirtualKey::F14,
        0x6D => VirtualKey::F10,
        0x6F => VirtualKey::F12,
        0x71 => VirtualKey::F15,
        0x73 => VirtualKey::Home,
        0x74 => VirtualKey::PageUp,
        0x75 => VirtualKey::Delete,
        0x76 => VirtualKey::F4,
        0x77 => VirtualKey::End,
        0x78 => VirtualKey::F2,
        0x79 => VirtualKey::PageDown,
        0x7A => VirtualKey::F1,
        0x7B => VirtualKey::Left,
        0x7C => VirtualKey::Right,
        0x7D => VirtualKey::Down,
        0x7E => VirtualKey::Up,
        _ => VirtualKey::Unknown(code as u32),
    }
}

/// Converts a macOS key code to a key; codes without a key become `Unknown`.
pub fn keycode_to_virtual_key(code: u16) -> (r: VirtualKey)
    ensures
        r == mac_key_of_code(code),
{
    match code {
        0x00 => VirtualKey::A,
        0x01 => VirtualKey::S,
        0x02 => VirtualKey::D,
        0x03 => VirtualKey::F,
        0x04 => VirtualKey::H,
        0x05 => VirtualKey::G,
        0x06 => VirtualKey::Z,
        0x07 => VirtualKey::X,
        0x08 => VirtualKey::C,
        0x09 => VirtualKey::V,
        0x0B => VirtualKey::B,
        0x0C => VirtualKey::Q,
        0x0D => VirtualKey::W,
        0x0E => VirtualKey::E,
        0x0F => VirtualKey::R,
        0x10 => VirtualKey::Y,
        0x11 => VirtualKey::T,
        0x12 => VirtualKey::Key1,
        0x13 => VirtualKey::Key2,
        0x14 => VirtualKey::Key3,
        0x15 => VirtualKey::Key4,
        0x16 => VirtualKey::Key6,
        0x17 => VirtualKey::Key5,
        0x18 => VirtualKey::Equal,
        0x19 => VirtualKey::Key9,
        0x1A => VirtualKey::Key7,
        0x1B => VirtualKey::Minus,
        0x1C => VirtualKey::Key8,
        0x1D => VirtualKey::Key0,
        0x1E => VirtualKey::RightBracket,
        0x1F => VirtualKey::O,
        0x20 => VirtualKey::U,
        0x21 => VirtualKey::LeftBracket,
        0x22 => VirtualKey::I,
        0x23 => VirtualKey::P,
        0x24 => VirtualKey::Enter,
        0x25 => VirtualKey::L,
        0x26 => VirtualKey::J,
        0x27 => VirtualKey::Quote,
        0x28 => VirtualKey::K,
        0x29 => VirtualKey::Semicolon,
        0x2A => VirtualKey::Backslash,
        0x2B => VirtualKey::Comma,
        0x2C => VirtualKey::Slash,
        0x2D => VirtualKey::N,
        0x2E => VirtualKey::M,
        0x2F => VirtualKey::Period,
        0x30 => VirtualKey::Tab,
        0x31 => VirtualKey::Space,
        0x33 => VirtualKey::Backspace,
        0x35 => VirtualKey::Escape,
        0x37 => VirtualKey::Command,
        0x38 => VirtualKey::Shift,
        0x39 => VirtualKey::CapsLock,
        0x3A => VirtualKey::Alt,
        0x3B => VirtualKey::Control,
        0x41 => VirtualKey::NumpadDecimal,
        0x43 => VirtualKey::NumpadMultiply,
        0x45 => VirtualKey::NumpadAdd,
        0x47 => VirtualKey::NumLock,
        0x4B => VirtualKey::NumpadDivide,
        0x4C => VirtualKey::NumpadEnter,
        0x4E => VirtualKey::NumpadSubtract,
        0x51 => VirtualKey::NumpadEqual,
        0x52 => VirtualKey::Numpad0,
        0x53 => VirtualKey::Numpad1,
        0x54 => VirtualKey::Numpad2,
        0x55 => VirtualKey::Numpad3,
        0x56 => VirtualKey::Numpad4,
        0x57 => VirtualKey::Numpad5,
        0x58 => VirtualKey::Numpad6,
        0x59 => VirtualKey::Numpad7,
        0x5B => VirtualKey::Numpad8,
        0x5C => VirtualKey::Numpad9,
        0x60 => VirtualKey::F5,
        0x61 => VirtualKey::F6,
        0x62 => VirtualKey::F7,
        0x63 => VirtualKey::F3,
        0x64 => VirtualKey::F8,
        0x65 => VirtualKey::F9,
        0x67 => VirtualKey::F11,
        0x69 => VirtualKey::F13,
        0x6A => VirtualKey::F16,
        0x6B => VirtualKey::F14,
        0x6D => VirtualKey::F10,
        0x6F => VirtualKey::F12,
        0x71 => VirtualKey::F15,
        0x73 => VirtualKey::Home,
        0x74 => VirtualKey::PageUp,
        0x75 => VirtualKey::Delete,
        0x76 => VirtualKey::F4,
        0x77 => VirtualKey::End,
        0x78 => VirtualKey::F2,
        0x79 => VirtualKey::PageDown,
        0x7A => VirtualKey::F1,
        0x7B => VirtualKey::Left,
        0x7C => VirtualKey::Right,
        0x7D => VirtualKey::Down,
        0x7E => VirtualKey::Up,
        _ => VirtualKey::Unknown(code as u32),
    }
}

/// The event of a macOS key event tap: a press for a key-down event, a
/// release otherwise (key-up and modifier changes).
pub fn macos_key_event(keycode: u16, key_down: bool) -> (r: RawKeyEvent)
    ensures
        r == (RawKeyEvent { key: mac_key_of_code(keycode), pressed: key_down }),
{
    RawKeyEvent { key: keycode_to_virtual_key(keycode), pressed: key_down }
}

// ---- Windows: virtual-key codes of WinUser.h ----

/// The key of a Windows virtual-key code.
pub open spec fn windows_key_of_code(code: u32) -> VirtualKey {
    match code {
        0x41 => VirtualKey::A,
        0x42 => VirtualKey::B,
        0x43 => VirtualKey::C,
        0x44 => VirtualKey::D,
        0x45 => VirtualKey::E,
        0x46 => VirtualKey::F,
        0x47 => VirtualKey::G,
        0x48 => VirtualKey::H,
        0x49 => VirtualKey::I,
        0x4A => VirtualKey::J,
        0x4B => VirtualKey::K,
        0x4C => VirtualKey::L,
        0x4D => VirtualKey::M,
        0x4E => VirtualKey::N,
        0x4F => VirtualKey::O,
        0x50 => VirtualKey::P,
        0x51 => VirtualKey::Q,
        0x52 => VirtualKey::R,
        0x53 => VirtualKey::S,
        0x54 => VirtualKey::T,
        0x55 => VirtualKey::U,
        0x56 => VirtualKey::V,
        0x57 => VirtualKey::W,
        0x58 => VirtualKey::X,
        0x59 => VirtualKey::Y,
        0x5A => VirtualKey::Z,
        0x30 => VirtualKey::Key0,
        0x31 => VirtualKey::Key1,
        0x32 => VirtualKey::Key2,
        0x33 => VirtualKey::Key3,
        0x34 => VirtualKey::Key4,
        0x35 => VirtualKey::Key5,
        0x36 => VirtualKey::Key6,
        0x37 => VirtualKey::Key7,
        0x38 => VirtualKey::Key8,
        0x39 => VirtualKey::Key9,
        0x70 => VirtualKey::F1,
        0x71 => VirtualKey::F2,
        0x72 => VirtualKey::F3,
        0x73 => VirtualKey::F4,
        0x74 => VirtualKey::F5,
        0x75 => VirtualKey::F6,
        0x76 => VirtualKey::F7,
        0x77 => VirtualKey::F8,
        0x78 => VirtualKey::F9,
        0x79 => VirtualKey::F10,
        0x7A => VirtualKey::F11,
        0x7B => VirtualKey::F12,
        0x60 => VirtualKey::Numpad0,
        0x61 => VirtualKey::Numpad1,
        0x62 => VirtualKey::Numpad2,
        0x63 => VirtualKey::Numpad3,
        0x64 => VirtualKey::Numpad4,
        0x65 => VirtualKey::Numpad5,
        0x66 => VirtualKey::Numpad6,
        0x67 => VirtualKey::Numpad7,
        0x68 => VirtualKey::Numpad8,
        0x69 => VirtualKey::Numpad9,
        0x20 => VirtualKey::Space,
        0x0D => VirtualKey::Enter,
        0x1B => VirtualKey::Escape,
        0x09 => VirtualKey::Tab,
        0x08 => VirtualKey::Backspace,
        0x2E => VirtualKey::Delete,
        0x10 => VirtualKey::Shift,
        0x11 => VirtualKey::Control,
        0x12 => VirtualKey::Alt,
        0x14 => VirtualKey::CapsLock,
        0x91 => VirtualKey::ScrollLock,
        0x90 => VirtualKey::NumLock,
        0x5B => VirtualKey::LWin,
        0x5C => VirtualKey::RWin,
        0x26 => VirtualKey::Up,
        0x28 => VirtualKey::Down,
        0x25 => VirtualKey::Left,
        0x27 => VirtualKey::Right,
        0x24 => VirtualKey::Home,
        0x23 => VirtualKey::End,
        0x21 => VirtualKey::PageUp,
        0x22 => VirtualKey::PageDown,
        0x13 => VirtualKey::Pause,
        0x2D => VirtualKey::Insert,
        0xBD => VirtualKey::Minus,
        0xBB => VirtualKey::Equal,
        0xDB => VirtualKey::LeftBracket,
        0xDD => VirtualKey::RightBracket,
        0xDC => VirtualKey::Backslash,
        0xBA => VirtualKey::Semicolon,
        0xDE => VirtualKey::Quote,
        0xBC => VirtualKey::Comma,
        0xBE => VirtualKey::Period,
        0xBF => VirtualKey::Slash,
        _ => VirtualKey::Unknown(code as u32),
    }
}

/// Converts a Windows virtual-key code to a key; codes without a key become `Unknown`.
pub fn vk_code_to_virtual_key(code: u32) -> (r: VirtualKey)
    ensures
        r == windows_key_of_code(code),
{
    match code {
        0x41 => VirtualKey::A,
        0x42 => VirtualKey::B,
        0x43 => VirtualKey::C,
        0x44 => VirtualKey::D,
        0x45 => VirtualKey::E,
        0x46 => VirtualKey::F,
        0x47 => VirtualKey::G,
        0x48 => VirtualKey::H,
        0x49 => VirtualKey::I,
        0x4A => VirtualKey::J,
        0x4B => VirtualKey::K,
        0x4C => VirtualKey::L,
        0x4D => VirtualKey::M,
        0x4E => VirtualKey::N,
        0x4F => VirtualKey::O,
        0x50 => VirtualKey::P,
        0x51 => VirtualKey::Q,
        0x52 => VirtualKey::R,
        0x53 => VirtualKey::S,
        0x54 => VirtualKey::T,
        0x55 => VirtualKey::U,
        0x56 => VirtualKey::V,
        0x57 => VirtualKey::W,
        0x58 => VirtualKey::X,
        0x59 => VirtualKey::Y,
        0x5A => VirtualKey::Z,
        0x30 => VirtualKey::Key0,
        0x31 => VirtualKey::Key1,
        0x32 => VirtualKey::Key2,
        0x33 => VirtualKey::Key3,
        0x34 => VirtualKey::Key4,
        0x35 => VirtualKey::Key5,
        0x36 => VirtualKey::Key6,
        0x37 => VirtualKey::Key7,
        0x38 => VirtualKey::Key8,
        0x39 => VirtualKey::Key9,
        0x70 => VirtualKey::F1,
        0x71 => VirtualKey::F2,
        0x72 => VirtualKey::F3,
        0x73 => VirtualKey::F4,
        0x74 => VirtualKey::F5,
        0x75 => VirtualKey::F6,
        0x76 => VirtualKey::F7,
        0x77 => VirtualKey::F8,
        0x78 => VirtualKey::F9,
        0x79 => VirtualKey::F10,
        0x7A => VirtualKey::F11,
        0x7B => VirtualKey::F12,
        0x60 => VirtualKey::Numpad0,
        0x61 => VirtualKey::Numpad1,
        0x62 => VirtualKey::Numpad2,
        0x63 => VirtualKey::Numpad3,
        0x64 => VirtualKey::Numpad4,
        0x65 => VirtualKey::Numpad5,
        0x66 => VirtualKey::Numpad6,
        0x67 => VirtualKey::Numpad7,
        0x68 => VirtualKey::Numpad8,
        0x69 => VirtualKey::Numpad9,
        0x20 => VirtualKey::Space,
        0x0D => VirtualKey::Enter,
        0x1B => VirtualKey::Escape,
        0x09 => VirtualKey::Tab,
        0x08 => VirtualKey::Backspace,
        0x2E => VirtualKey::Delete,
        0x10 => VirtualKey::Shift,
        0x11 => VirtualKey::Control,
        0x12 => VirtualKey::Alt,
        0x14 => VirtualKey::CapsLock,
        0x91 => VirtualKey::ScrollLock,
        0x90 => VirtualKey::NumLock,
        0x5B => VirtualKey::LWin,
        0x5C => VirtualKey::RWin,
        0x26 => VirtualKey::Up,
        0x28 => VirtualKey::Down,
        0x25 => VirtualKey::Left,
        0x27 => VirtualKey::Right,
        0x24 => VirtualKey::Home,
        0x23 => VirtualKey::End,
        0x21 => VirtualKey::PageUp,
        0x22 => VirtualKey::PageDown,
        0x13 => VirtualKey::Pause,
        0x2D => VirtualKey::Insert,
        0xBD => VirtualKey::Minus,
        0xBB => VirtualKey::Equal,
        0xDB => VirtualKey::LeftBracket,
        0xDD => VirtualKey::RightBracket,
        0xDC => VirtualKey::Backslash,
        0xBA => VirtualKey::Semicolon,
        0xDE => VirtualKey::Quote,
        0xBC => VirtualKey::Comma,
        0xBE => VirtualKey::Period,
        0xBF => VirtualKey::Slash,
        _ => VirtualKey::Unknown(code as u32),
    }
}

/// The Windows virtual-key code sent for a key: an unknown key's own code (its low 16 bits), 0 for keys without a code.
pub open spec fn windows_code_of_key(key: VirtualKey) -> u16 {
    match key {
        VirtualKey::A => 0x41,
        VirtualKey::B => 0x42,
        VirtualKey::C => 0x43,
        VirtualKey::D => 0x44,
        VirtualKey::E => 0x45,
        VirtualKey::F => 0x46,
        VirtualKey::G => 0x47,
        VirtualKey::H => 0x48,
        VirtualKey::I => 0x49,
        VirtualKey::J => 0x4A,
        VirtualKey::K => 0x4B,
        VirtualKey::L => 0x4C,
        VirtualKey::M => 0x4D,
        VirtualKey::N => 0x4E,
        VirtualKey::O => 0x4F,
        VirtualKey::P => 0x50,
        VirtualKey::Q => 0x51,
        VirtualKey::R => 0x52,
        VirtualKey::S => 0x53,
        VirtualKey::T => 0x54,
        VirtualKey::U => 0x55,
        VirtualKey::V => 0x56,
        VirtualKey::W => 0x57,
        VirtualKey::X => 0x58,
        VirtualKey::Y => 0x59,
        VirtualKey::Z => 0x5A,
        VirtualKey::Key0 => 0x30,
        VirtualKey::Key1 => 0x31,
        VirtualKey::Key2 => 0x32,
        VirtualKey::Key3 => 0x33,
        VirtualKey::Key4 => 0x34,
        VirtualKey::Key5 => 0x35,
        VirtualKey::Key6 => 0x36,
        VirtualKey::Key7 => 0x37,
        VirtualKey::Key8 => 0x38,
        VirtualKey::Key9 => 0x39,
        VirtualKey::F1 => 0x70,
        VirtualKey::F2 => 0x71,
        VirtualKey::F3 => 0x72,
        VirtualKey::F4 => 0x73,
        VirtualKey::F5 => 0x74,
        VirtualKey::F6 => 0x75,
        VirtualKey::F7 => 0x76,
        VirtualKey::F8 => 0x77,
        VirtualKey::F9 => 0x78,
        VirtualKey::F10 => 0x79,
        VirtualKey::F11 => 0x7A,
        VirtualKey::F12 => 0x7B,
        VirtualKey::Numpad0 => 0x60,
        VirtualKey::Numpad1 => 0x61,
        VirtualKey::Numpad2 => 0x62,
        VirtualKey::Numpad3 => 0x63,
        VirtualKey::Numpad4 => 0x64,
        VirtualKey::Numpad5 => 0x65,
        VirtualKey::Numpad6 => 0x66,
        VirtualKey::Numpad7 => 0x67,
        VirtualKey::Numpad8 => 0x68,
        VirtualKey::Numpad9 => 0x69,
        VirtualKey::NumpadAdd => 0x6B,
        VirtualKey::NumpadSubtract => 0x6D,
        VirtualKey::NumpadMultiply => 0x6A,
        VirtualKey::NumpadDivide => 0x6F,
        VirtualKey::NumpadEnter => 0x0D,
        VirtualKey::Space => 0x20,
        VirtualKey::Enter => 0x0D,
        VirtualKey::Escape => 0x1B,
        VirtualKey::Tab => 0x09,
        VirtualKey::Backspace => 0x08,
        VirtualKey::Delete => 0x2E,
        VirtualKey::Insert => 0x2D,
        VirtualKey::Pause => 0x13,
        VirtualKey::Shift => 0x10,
        VirtualKey::Control => 0x11,
        VirtualKey::Alt => 0x12,
        VirtualKey::CapsLock => 0x14,
        VirtualKey::ScrollLock => 0x91,
        VirtualKey::NumLock => 0x90,
        VirtualKey::Up => 0x26,
        VirtualKey::Down => 0x28,
        VirtualKey::Left => 0x25,
        VirtualKey::Right => 0x27,
        VirtualKey::Home => 0x24,
        VirtualKey::End => 0x23,
        VirtualKey::PageUp => 0x21,
        VirtualKey::PageDown => 0x22,
        VirtualKey::Minus => 0xBD,
        VirtualKey::Equal => 0xBB,
        VirtualKey::LeftBracket => 0xDB,
        VirtualKey::RightBracket => 0xDD,
        VirtualKey::Backslash => 0xDC,
        VirtualKey::Semicolon => 0xBA,
        VirtualKey::Quote => 0xDE,
        VirtualKey::Comma => 0xBC,
        VirtualKey::Period => 0xBE,
        VirtualKey::Slash => 0xBF,
        VirtualKey::Unknown(code) => code as u16,
        _ => 0,
    }
}

/// Converts a key to the Windows virtual-key code to send.
pub fn virtual_key_to_vk_code(key: VirtualKey) -> (r: u16)
    ensures
        r == windows_code_of_key(key),
{
    match key {
        VirtualKey::A => 0x41,
        VirtualKey::B => 0x42,
        VirtualKey::C => 0x43,
        VirtualKey::D => 0x44,
        VirtualKey::E => 0x45,
        VirtualKey::F => 0x46,
        VirtualKey::G => 0x47,
        VirtualKey::H => 0x48,
        VirtualKey::I => 0x49,
        VirtualKey::J => 0x4A,
        VirtualKey::K => 0x4B,
        VirtualKey::L => 0x4C,
        VirtualKey::M => 0x4D,
        VirtualKey::N => 0x4E,
        VirtualKey::O => 0x4F,
        VirtualKey::P => 0x50,
        VirtualKey::Q => 0x51,
        VirtualKey::R => 0x52,
        VirtualKey::S => 0x53,
        VirtualKey::T => 0x54,
        VirtualKey::U => 0x55,
        VirtualKey::V => 0x56,
        VirtualKey::W => 0x57,
        VirtualKey::X => 0x58,
        VirtualKey::Y => 0x59,
        VirtualKey::Z => 0x5A,
        VirtualKey::Key0 => 0x30,
        VirtualKey::Key1 => 0x31,
        VirtualKey::Key2 => 0x32,
        VirtualKey::Key3 => 0x33,
        VirtualKey::Key4 => 0x34,
        VirtualKey::Key5 => 0x35,
        VirtualKey::Key6 => 0x36,
        VirtualKey::Key7 => 0x37,
        VirtualKey::Key8 => 0x38,
        VirtualKey::Key9 => 0x39,
        VirtualKey::F1 => 0x70,
        VirtualKey::F2 => 0x71,
        VirtualKey::F3 => 0x72,
        VirtualKey::F4 => 0x73,
        VirtualKey::F5 => 0x74,
        VirtualKey::F6 => 0x75,
        VirtualKey::F7 => 0x76,
        VirtualKey::F8 => 0x77,
        VirtualKey::F9 => 0x78,
        VirtualKey::F10 => 0x79,
        VirtualKey::F11 => 0x7A,
        VirtualKey::F12 => 0x7B,
        VirtualKey::Numpad0 => 0x60,
        VirtualKey::Numpad1 => 0x61,
        VirtualKey::Numpad2 => 0x62,
        VirtualKey::Numpad3 => 0x63,
        VirtualKey::Numpad4 => 0x64,
        VirtualKey::Numpad5 => 0x65,
        VirtualKey::Numpad6 => 0x66,
        VirtualKey::Numpad7 => 0x67,
        VirtualKey::Numpad8 => 0x68,
        VirtualKey::Numpad9 => 0x69,
        VirtualKey::NumpadAdd => 0x6B,
        VirtualKey::NumpadSubtract => 0x6D,
        VirtualKey::NumpadMultiply => 0x6A,
        VirtualKey::NumpadDivide => 0x6F,
        VirtualKey::NumpadEnter => 0x0D,
        VirtualKey::Space => 0x20,
        VirtualKey::Enter => 0x0D,
        VirtualKey::Escape => 0x1B,
        VirtualKey::Tab => 0x09,
        VirtualKey::Backspace => 0x08,
        VirtualKey::Delete => 0x2E,
        VirtualKey::Insert => 0x2D,
        VirtualKey::Pause => 0x13,
        VirtualKey::Shift => 0x10,
        VirtualKey::Control => 0x11,
        VirtualKey::Alt => 0x12,
        VirtualKey::CapsLock => 0x14,
        VirtualKey::ScrollLock => 0x91,
        VirtualKey::NumLock => 0x90,
        VirtualKey::Up => 0x26,
        VirtualKey::Down => 0x28,
        VirtualKey::Left => 0x25,
        VirtualKey::Right => 0x27,
        VirtualKey::Home => 0x24,
        VirtualKey::End => 0x23,
        VirtualKey::PageUp => 0x21,
        VirtualKey::PageDown => 0x22,
        VirtualKey::Minus => 0xBD,
        VirtualKey::Equal => 0xBB,
        VirtualKey::LeftBracket => 0xDB,
        VirtualKey::RightBracket => 0xDD,
        VirtualKey::Backslash => 0xDC,
        VirtualKey::Semicolon => 0xBA,
        VirtualKey::Quote => 0xDE,
        VirtualKey::Comma => 0xBC,
        VirtualKey::Period => 0xBE,
        VirtualKey::Slash => 0xBF,
        VirtualKey::Unknown(code) => code as u16,
        _ => 0,
    }
}

/// Windows message numbers of a key press (`WM_KEYDOWN`, `WM_SYSKEYDOWN`).
pub open spec fn is_key_down_message(message: u32) -> bool {
    message == 0x0100 || message == 0x0104
}

/// The event of a low-level keyboard hook call: the key of the virtual-key
/// code, pressed for the key-down messages.
pub fn windows_key_event(vk_code: u32, message: u32) -> (r: RawKeyEvent)
    ensures
        r == (RawKeyEvent { key: windows_key_of_code(vk_code), pressed: is_key_down_message(message) }),
{
    RawKeyEvent { key: vk_code_to_virtual_key(vk_code), pressed: message == 0x0100 || message == 0x0104 }
}

/// What the Windows low-level keyboard hook procedure does with an event.
#[derive(Clone, Copy, PartialEq, Eq, Debug, Structural)]
pub enum WindowsHookAction {
    /// Hand the event to the next hook.
    CallNext,
    /// Swallow the event.
    Block,
    /// Swallow the event and send the key instead, pressed or released as
    /// the intercepted event was.
    BlockAndSend(VirtualKey, bool),
}

/// Whether the hook procedure handles an event itself: only when the hook
/// code is not negative and the event was not injected by this program
/// (injected events carry extra information, and handling them would loop).
pub fn windows_should_handle(n_code: i32, extra_info: usize) -> (r: bool)
    ensures
        r == (n_code >= 0 && extra_info == 0),
{
    n_code >= 0 && extra_info == 0
}

/// What the hook procedure does given the remapping decision for an event,
/// `None` when no callback is installed.
pub fn windows_hook_action(decision: Option<HookResult>, pressed: bool) -> (r: WindowsHookAction)
    ensures
        r == match decision {
            Some(HookResult::Suppress) => WindowsHookAction::Block,
            Some(HookResult::Replace(key)) => WindowsHookAction::BlockAndSend(key, pressed),
            _ => WindowsHookAction::CallNext,
        },
{
    match decision {
        Some(HookResult::Pass) => WindowsHookAction::CallNext,
        Some(HookResult::Suppress) => WindowsHookAction::Block,
        Some(HookResult::Replace(new_key)) => WindowsHookAction::BlockAndSend(new_key, pressed),
        None => WindowsHookAction::CallNext,
    }
}

// ---- Linux: key codes of linux/input-event-codes.h, as evdev names them ----

/// The key of a Linux input key code.
pub open spec fn evdev_key_of_code(code: u16) -> VirtualKey {
    match code {
        0x1E => VirtualKey::A,
        0x30 => VirtualKey::B,
        0x2E => VirtualKey::C,
        0x20 => VirtualKey::D,
        0x12 => VirtualKey::E,
        0x21 => VirtualKey::F,
        0x22 => VirtualKey::G,
        0x23 => VirtualKey::H,
        0x17 => VirtualKey::I,
        0x24 => VirtualKey::J,
        0x25 => VirtualKey::K,
        0x26 => VirtualKey::L,
        0x32 => VirtualKey::M,
        0x31 => VirtualKey::N,
        0x18 => VirtualKey::O,
        0x19 => VirtualKey::P,
        0x10 => VirtualKey::Q,
        0x13 => VirtualKey::R,
        0x1F => VirtualKey::S,
        0x14 => VirtualKey::T,
        0x16 => VirtualKey::U,
        0x2F => VirtualKey::V,
        0x11 => VirtualKey::W,
        0x2D => VirtualKey::X,
        0x15 => VirtualKey::Y,
        0x2C => VirtualKey::Z,
        0x0B => VirtualKey::Key0,
        0x02 => VirtualKey::Key1,
        0x03 => VirtualKey::Key2,
        0x04 => VirtualKey::Key3,
        0x05 => VirtualKey::Key4,
        0x06 => VirtualKey::Key5,
        0x07 => VirtualKey::Key6,
        0x08 => VirtualKey::Key7,
        0x09 => VirtualKey::Key8,
        0x0A => VirtualKey::Key9,
        0x3B => VirtualKey::F1,
        0x3C => VirtualKey::F2,
        0x3D => VirtualKey::F3,
        0x3E => VirtualKey::F4,
        0x3F => VirtualKey::F5,
        0x40 => VirtualKey::F6,
        0x41 => VirtualKey::F7,
        0x42 => VirtualKey::F8,
        0x43 => VirtualKey::F9,
        0x44 => VirtualKey::F10,
        0x57 => VirtualKey::F11,
        0x58 => VirtualKey::F12,
        0x52 => VirtualKey::Numpad0,
        0x4F => VirtualKey::Numpad1,
        0x50 => VirtualKey::Numpad2,
        0x51 => VirtualKey::Numpad3,
        0x4B => VirtualKey::Numpad4,
        0x4C => VirtualKey::Numpad5,
        0x4D => VirtualKey::Numpad6,
        0x47 => VirtualKey::Numpad7,
        0x48 => VirtualKey::Numpad8,
        0x49 => VirtualKey::Numpad9,
        0x4E => VirtualKey::NumpadAdd,
        0x4A => VirtualKey::NumpadSubtract,
        0x37 => VirtualKey::NumpadMultiply,
        0x62 => VirtualKey::NumpadDivide,
        0x60 => VirtualKey::NumpadEnter,
        0x53 => VirtualKey::NumpadDecimal,
        0x39 => VirtualKey::Space,
        0x1C => VirtualKey::Enter,
        0x01 => VirtualKey::Escape,
        0x0F => VirtualKey::Tab,
        0x0E => VirtualKey::Backspace,
        0x6F => VirtualKey::Delete,
        0x6E => VirtualKey::Insert,
        0x66 => VirtualKey::Home,
        0x6B => VirtualKey::End,
        0x68 => VirtualKey::PageUp,
        0x6D => VirtualKey::PageDown,
        0x2A => VirtualKey::Shift,
        0x36 => VirtualKey::Shift,
        0x1D => VirtualKey::Control,
        0x61 => VirtualKey::Control,
        0x38 => VirtualKey::Alt,
        0x64 => VirtualKey::Alt,
        0x3A => VirtualKey::CapsLock,
        0x46 => VirtualKey::ScrollLock,
        0x45 => VirtualKey::NumLock,
        0x67 => VirtualKey::Up,
        0x6C => VirtualKey::Down,
        0x69 => VirtualKey::Left,
        0x6A => VirtualKey::Right,
        0x0C => VirtualKey::Minus,
        0x0D => VirtualKey::Equal,
        0x1A => VirtualKey::LeftBracket,
        0x1B => VirtualKey::RightBracket,
        0x2B => VirtualKey::Backslash,
        0x27 => VirtualKey::Semicolon,
        0x28 => VirtualKey::Quote,
        0x33 => VirtualKey::Comma,
        0x34 => VirtualKey::Period,
        0x35 => VirtualKey::Slash,
        _ => VirtualKey::Unknown(code as u32),
    }
}

/// Converts a Linux input key code to a key; codes without a key become `Unknown`.
pub fn evdev_key_to_virtual_key(code: u16) -> (r: VirtualKey)
    ensures
        r == evdev_key_of_code(code),
{
    match code {
        0x1E => VirtualKey::A,
        0x30 => VirtualKey::B,
        0x2E => VirtualKey::C,
        0x20 => VirtualKey::D,
        0x12 => VirtualKey::E,
        0x21 => VirtualKey::F,
        0x22 => VirtualKey::G,
        0x23 => VirtualKey::H,
        0x17 => VirtualKey::I,
        0x24 => VirtualKey::J,
        0x25 => VirtualKey::K,
        0x26 => VirtualKey::L,
        0x32 => VirtualKey::M,
        0x31 => VirtualKey::N,
        0x18 => VirtualKey::O,
        0x19 => VirtualKey::P,
        0x10 => VirtualKey::Q,
        0x13 => VirtualKey::R,
        0x1F => VirtualKey::S,
        0x14 => VirtualKey::T,
        0x16 => VirtualKey::U,
        0x2F => VirtualKey::V,
        0x11 => VirtualKey::W,
        0x2D => VirtualKey::X,
        0x15 => VirtualKey::Y,
        0x2C => VirtualKey::Z,
        0x0B => VirtualKey::Key0,
        0x02 => VirtualKey::Key1,
        0x03 => VirtualKey::Key2,
        0x04 => VirtualKey::Key3,
        0x05 => VirtualKey::Key4,
        0x06 => VirtualKey::Key5,
        0x07 => VirtualKey::Key6,
        0x08 => VirtualKey::Key7,
        0x09 => VirtualKey::Key8,
        0x0A => VirtualKey::Key9,
        0x3B => VirtualKey::F1,
        0x3C => VirtualKey::F2,
        0x3D => VirtualKey::F3,
        0x3E => VirtualKey::F4,
        0x3F => VirtualKey::F5,
        0x40 => VirtualKey::F6,
        0x41 => VirtualKey::F7,
        0x42 => VirtualKey::F8,
        0x43 => VirtualKey::F9,
        0x44 => VirtualKey::F10,
        0x57 => VirtualKey::F11,
        0x58 => VirtualKey::F12,
        0x52 => VirtualKey::Numpad0,
        0x4F => VirtualKey::Numpad1,
        0x50 => VirtualKey::Numpad2,
        0x51 => VirtualKey::Numpad3,
        0x4B => VirtualKey::Numpad4,
        0x4C => VirtualKey::Numpad5,
        0x4D => VirtualKey::Numpad6,
        0x47 => VirtualKey::Numpad7,
        0x48 => VirtualKey::Numpad8,
        0x49 => VirtualKey::Numpad9,
        0x4E => VirtualKey::NumpadAdd,
        0x4A => VirtualKey::NumpadSubtract,
        0x37 => VirtualKey::NumpadMultiply,
        0x62 => VirtualKey::NumpadDivide,
        0x60 => VirtualKey::NumpadEnter,
        0x53 => VirtualKey::NumpadDecimal,
        0x39 => VirtualKey::Space,
        0x1C => VirtualKey::Enter,
        0x01 => VirtualKey::Escape,
        0x0F => VirtualKey::Tab,
        0x0E => VirtualKey::Backspace,
        0x6F => VirtualKey::Delete,
        0x6E => VirtualKey::Insert,
        0x66 => VirtualKey::Home,
        0x6B => VirtualKey::End,
        0x68 => VirtualKey::PageUp,
        0x6D => VirtualKey::PageDown,
        0x2A => VirtualKey::Shift,
        0x36 => VirtualKey::Shift,
        0x1D => VirtualKey::Control,
        0x61 => VirtualKey::Control,
        0x38 => VirtualKey::Alt,
        0x64 => VirtualKey::Alt,
        0x3A => VirtualKey::CapsLock,
        0x46 => VirtualKey::ScrollLock,
        0x45 => VirtualKey::NumLock,
        0x67 => VirtualKey::Up,
        0x6C => VirtualKey::Down,
        0x69 => VirtualKey::Left,
        0x6A => VirtualKey::Right,
        0x0C => VirtualKey::Minus,
        0x0D => VirtualKey::Equal,
        0x1A => VirtualKey::LeftBracket,
        0x1B => VirtualKey::RightBracket,
        0x2B => VirtualKey::Backslash,
        0x27 => VirtualKey::Semicolon,
        0x28 => VirtualKey::Quote,
        0x33 => VirtualKey::Comma,
        0x34 => VirtualKey::Period,
        0x35 => VirtualKey::Slash,
        _ => VirtualKey::Unknown(code as u32),
    }
}

/// The Linux input key code emitted for a key, if it has one (modifiers map to their left-hand keys).
pub open spec fn evdev_code_of_key(key: VirtualKey) -> Option<u16> {
    match key {
        VirtualKey::A => Some(0x1E),
        VirtualKey::B => Some(0x30),
        VirtualKey::C => Some(0x2E),
        VirtualKey::D => Some(0x20),
        VirtualKey::E => Some(0x12),
        VirtualKey::F => Some(0x21),
        VirtualKey::G => Some(0x22),
        VirtualKey::H => Some(0x23),
        VirtualKey::I => Some(0x17),
        VirtualKey::J => Some(0x24),
        VirtualKey::K => Some(0x25),
        VirtualKey::L => Some(0x26),
        VirtualKey::M => Some(0x32),
        VirtualKey::N => Some(0x31),
        VirtualKey::O => Some(0x18),
        VirtualKey::P => Some(0x19),
        VirtualKey::Q => Some(0x10),
        VirtualKey::R => Some(0x13),
        VirtualKey::S => Some(0x1F),
        VirtualKey::T => Some(0x14),
        VirtualKey::U => Some(0x16),
        VirtualKey::V => Some(0x2F),
        VirtualKey::W => Some(0x11),
        VirtualKey::X => Some(0x2D),
        VirtualKey::Y => Some(0x15),
        VirtualKey::Z => Some(0x2C),
        VirtualKey::Key0 => Some(0x0B),
        VirtualKey::Key1 => Some(0x02),
        VirtualKey::Key2 => Some(0x03),
        VirtualKey::Key3 => Some(0x04),
        VirtualKey::Key4 => Some(0x05),
        VirtualKey::Key5 => Some(0x06),
        VirtualKey::Key6 => Some(0x07),
        VirtualKey::Key7 => Some(0x08),
        VirtualKey::Key8 => Some(0x09),
        VirtualKey::Key9 => Some(0x0A),
        VirtualKey::F1 => Some(0x3B),
        VirtualKey::F2 => Some(0x3C),
        VirtualKey::F3 => Some(0x3D),
        VirtualKey::F4 => Some(0x3E),
        VirtualKey::F5 => Some(0x3F),
        VirtualKey::F6 => Some(0x40),
        VirtualKey::F7 => Some(0x41),
        VirtualKey::F8 => Some(0x42),
        VirtualKey::F9 => Some(0x43),
        VirtualKey::F10 => Some(0x44),
        VirtualKey::F11 => Some(0x57),
        VirtualKey::F12 => Some(0x58),
        VirtualKey::Numpad0 => Some(0x52),
        VirtualKey::Numpad1 => Some(0x4F),
        VirtualKey::Numpad2 => Some(0x50),
        VirtualKey::Numpad3 => Some(0x51),
        VirtualKey::Numpad4 => Some(0x4B),
        VirtualKey::Numpad5 => Some(0x4C),
        VirtualKey::Numpad6 => Some(0x4D),
        VirtualKey::Numpad7 => Some(0x47),
        VirtualKey::Numpad8 => Some(0x48),
        VirtualKey::Numpad9 => Some(0x49),
        VirtualKey::NumpadAdd => Some(0x4E),
        VirtualKey::NumpadSubtract => Some(0x4A),
        VirtualKey::NumpadMultiply => Some(0x37),
        VirtualKey::NumpadDivide => Some(0x62),
        VirtualKey::NumpadEnter => Some(0x60),
        VirtualKey::NumpadDecimal => Some(0x53),
        VirtualKey::Space => Some(0x39),
        VirtualKey::Enter => Some(0x1C),
        VirtualKey::Escape => Some(0x01),
        VirtualKey::Tab => Some(0x0F),
        VirtualKey::Backspace => Some(0x0E),
        VirtualKey::Delete => Some(0x6F),
        VirtualKey::Insert => Some(0x6E),
        VirtualKey::Home => Some(0x66),
        VirtualKey::End => Some(0x6B),
        VirtualKey::PageUp => Some(0x68),
        VirtualKey::PageDown => Some(0x6D),
        VirtualKey::Up => Some(0x67),
        VirtualKey::Down => Some(0x6C),
        VirtualKey::Left => Some(0x69),
        VirtualKey::Right => Some(0x6A),
        VirtualKey::Shift => Some(0x2A),
        VirtualKey::Control => Some(0x1D),
        VirtualKey::Alt => Some(0x38),
        VirtualKey::CapsLock => Some(0x3A),
        VirtualKey::ScrollLock => Some(0x46),
        VirtualKey::NumLock => Some(0x45),
        VirtualKey::Minus => Some(0x0C),
        VirtualKey::Equal => Some(0x0D),
        VirtualKey::LeftBracket => Some(0x1A),
        VirtualKey::RightBracket => Some(0x1B),
        VirtualKey::Backslash => Some(0x2B),
        VirtualKey::Semicolon => Some(0x27),
        VirtualKey::Quote => Some(0x28),
        VirtualKey::Comma => Some(0x33),
        VirtualKey::Period => Some(0x34),
        VirtualKey::Slash => Some(0x35),
        _ => None,
    }
}

/// Converts a key to the Linux input key code to emit.
pub fn virtual_key_to_evdev(key: VirtualKey) -> (r: Option<u16>)
    ensures
        r == evdev_code_of_key(key),
{
    match key {
        VirtualKey::A => Some(0x1E),
        VirtualKey::B => Some(0x30),
        VirtualKey::C => Some(0x2E),
        VirtualKey::D => Some(0x20),
        VirtualKey::E => Some(0x12),
        VirtualKey::F => Some(0x21),
        VirtualKey::G => Some(0x22),
        VirtualKey::H => Some(0x23),
        VirtualKey::I => Some(0x17),
        VirtualKey::J => Some(0x24),
        VirtualKey::K => Some(0x25),
        VirtualKey::L => Some(0x26),
        VirtualKey::M => Some(0x32),
        VirtualKey::N => Some(0x31),
        VirtualKey::O => Some(0x18),
        VirtualKey::P => Some(0x19),
        VirtualKey::Q => Some(0x10),
        VirtualKey::R => Some(0x13),
        VirtualKey::S => Some(0x1F),
        VirtualKey::T => Some(0x14),
        VirtualKey::U => Some(0x16),
        VirtualKey::V => Some(0x2F),
        VirtualKey::W => Some(0x11),
        VirtualKey::X => Some(0x2D),
        VirtualKey::Y => Some(0x15),
        VirtualKey::Z => Some(0x2C),
        VirtualKey::Key0 => Some(0x0B),
        VirtualKey::Key1 => Some(0x02),
        VirtualKey::Key2 => Some(0x03),
        VirtualKey::Key3 => Some(0x04),
        VirtualKey::Key4 => Some(0x05),
        VirtualKey::Key5 => Some(0x06),
        VirtualKey::Key6 => Some(0x07),
        VirtualKey::Key7 => Some(0x08),
        VirtualKey::Key8 => Some(0x09),
        VirtualKey::Key9 => Some(0x0A),
        VirtualKey::F1 => Some(0x3B),
        VirtualKey::F2 => Some(0x3C),
        VirtualKey::F3 => Some(0x3D),
        VirtualKey::F4 => Some(0x3E),
        VirtualKey::F5 => Some(0x3F),
        VirtualKey::F6 => Some(0x40),
        VirtualKey::F7 => Some(0x41),
        VirtualKey::F8 => Some(0x42),
        VirtualKey::F9 => Some(0x43),
        VirtualKey::F10 => Some(0x44),
        VirtualKey::F11 => Some(0x57),
        VirtualKey::F12 => Some(0x58),
        VirtualKey::Numpad0 => Some(0x52),
        VirtualKey::Numpad1 => Some(0x4F),
        VirtualKey::Numpad2 => Some(0x50),
        VirtualKey::Numpad3 => Some(0x51),
        VirtualKey::Numpad4 => Some(0x4B),
        VirtualKey::Numpad5 => Some(0x4C),
        VirtualKey::Numpad6 => Some(0x4D),
        VirtualKey::Numpad7 => Some(0x47),
        VirtualKey::Numpad8 => Some(0x48),
        VirtualKey::Numpad9 => Some(0x49),
        VirtualKey::NumpadAdd => Some(0x4E),
        VirtualKey::NumpadSubtract => Some(0x4A),
        VirtualKey::NumpadMultiply => Some(0x37),
        VirtualKey::NumpadDivide => Some(0x62),
        VirtualKey::NumpadEnter => Some(0x60),
        VirtualKey::NumpadDecimal => Some(0x53),
        VirtualKey::Space => Some(0x39),
        VirtualKey::Enter => Some(0x1C),
        VirtualKey::Escape => Some(0x01),
        VirtualKey::Tab => Some(0x0F),
        VirtualKey::Backspace => Some(0x0E),
        VirtualKey::Delete => Some(0x6F),
        VirtualKey::Insert => Some(0x6E),
        VirtualKey::Home => Some(0x66),
        VirtualKey::End => Some(0x6B),
        VirtualKey::PageUp => Some(0x68),
        VirtualKey::PageDown => Some(0x6D),
        VirtualKey::Up => Some(0x67),
        VirtualKey::Down => Some(0x6C),
        VirtualKey::Left => Some(0x69),
        VirtualKey::Right => Some(0x6A),
        VirtualKey::Shift => Some(0x2A),
        VirtualKey::Control => Some(0x1D),
        VirtualKey::Alt => Some(0x38),
        VirtualKey::CapsLock => Some(0x3A),
        VirtualKey::ScrollLock => Some(0x46),
        VirtualKey::NumLock => Some(0x45),
        VirtualKey::Minus => Some(0x0C),
        VirtualKey::Equal => Some(0x0D),
        VirtualKey::LeftBracket => Some(0x1A),
        VirtualKey::RightBracket => Some(0x1B),
        VirtualKey::Backslash => Some(0x2B),
        VirtualKey::Semicolon => Some(0x27),
        VirtualKey::Quote => Some(0x28),
        VirtualKey::Comma => Some(0x33),
        VirtualKey::Period => Some(0x34),
        VirtualKey::Slash => Some(0x35),
        _ => None,
    }
}

/// The event of an evdev key event: pressed when the value is 1 (0 is a
/// release, 2 an autorepeat).
pub fn evdev_key_event(code: u16, value: i32) -> (r: RawKeyEvent)
    ensures
        r == (RawKeyEvent { key: evdev_key_of_code(code), pressed: value == 1 }),
{
    RawKeyEvent { key: evdev_key_to_virtual_key(code), pressed: value == 1 }
}

/// The letter keys in alphabetical order.
pub open spec fn letter_keys() -> Seq<VirtualKey> {
    seq![
        VirtualKey::A,
        VirtualKey::B,
        VirtualKey::C,
        VirtualKey::D,
        VirtualKey::E,
        VirtualKey::F,
        VirtualKey::G,
        VirtualKey::H,
        VirtualKey::I,
        VirtualKey::J,
        VirtualKey::K,
        VirtualKey::L,
        VirtualKey::M,
        VirtualKey::N,
        VirtualKey::O,
        VirtualKey::P,
        VirtualKey::Q,
        VirtualKey::R,
        VirtualKey::S,
        VirtualKey::T,
        VirtualKey::U,
        VirtualKey::V,
        VirtualKey::W,
        VirtualKey::X,
        VirtualKey::Y,
        VirtualKey::Z,
    ]
}

/// The digit keys from 0 to 9.
pub open spec fn digit_keys() -> Seq<VirtualKey> {
    seq![
        VirtualKey::Key0,
        VirtualKey::Key1,
        VirtualKey::Key2,
        VirtualKey::Key3,
        VirtualKey::Key4,
        VirtualKey::Key5,
        VirtualKey::Key6,
        VirtualKey::Key7,
        VirtualKey::Key8,
        VirtualKey::Key9,
    ]
}

/// The function keys F1 to F12.
pub open spec fn function_keys() -> Seq<VirtualKey> {
    seq![
        VirtualKey::F1,
        VirtualKey::F2,
        VirtualKey::F3,
        VirtualKey::F4,
        VirtualKey::F5,
        VirtualKey::F6,
        VirtualKey::F7,
        VirtualKey::F8,
        VirtualKey::F9,
        VirtualKey::F10,
        VirtualKey::F11,
        VirtualKey::F12,
    ]
}

/// The numpad digit keys from 0 to 9.
pub open spec fn numpad_digit_keys() -> Seq<VirtualKey> {
    seq![
        VirtualKey::Numpad0,
        VirtualKey::Numpad1,
        VirtualKey::Numpad2,
        VirtualKey::Numpad3,
        VirtualKey::Numpad4,
        VirtualKey::Numpad5,
        VirtualKey::Numpad6,
        VirtualKey::Numpad7,
        VirtualKey::Numpad8,
        VirtualKey::Numpad9,
    ]
}

/// A letter key's Windows virtual-key code is its upper-case ASCII letter, both when reading and when sending.
pub proof fn law_windows_letter_codes()
    ensures
        forall|i: int| 0 <= i < 26 ==> windows_key_of_code((0x41 + i) as u32) == #[trigger] letter_keys()[i],
        forall|i: int| 0 <= i < 26 ==> windows_code_of_key(#[trigger] letter_keys()[i]) == (0x41 + i) as u16,
{
    assert forall|i: int| 0 <= i < 26 implies windows_key_of_code((0x41 + i) as u32) == #[trigger] letter_keys()[i]
        && windows_code_of_key(letter_keys()[i]) == (0x41 + i) as u16 by {
        if i == 0 {
        } else if i == 1 {
        } else if i == 2 {
        } else if i == 3 {
        } else if i == 4 {
        } else if i == 5 {
        } else if i == 6 {
        } else if i == 7 {
        } else if i == 8 {
        } else if i == 9 {
        } else if i == 10 {
        } else if i == 11 {
        } else if i == 12 {
        } else if i == 13 {
        } else if i == 14 {
        } else if i == 15 {
        } else if i == 16 {
        } else if i == 17 {
        } else if i == 18 {
        } else if i == 19 {
        } else if i == 20 {
        } else if i == 21 {
        } else if i == 22 {
        } else if i == 23 {
        } else if i == 24 {
        } else if i == 25 {
        }
    }
}

/// A digit key's Windows virtual-key code is its ASCII digit.
pub proof fn law_windows_digit_codes()
    ensures
        forall|i: int| 0 <= i < 10 ==> windows_key_of_code((0x30 + i) as u32) == #[trigger] digit_keys()[i],
        forall|i: int| 0 <= i < 10 ==> windows_code_of_key(#[trigger] digit_keys()[i]) == (0x30 + i) as u16,
{
    assert forall|i: int| 0 <= i < 10 implies windows_key_of_code((0x30 + i) as u32) == #[trigger] digit_keys()[i]
        && windows_code_of_key(digit_keys()[i]) == (0x30 + i) as u16 by {
        if i == 0 {
        } else if i == 1 {
        } else if i == 2 {
        } else if i == 3 {
        } else if i == 4 {
        } else if i == 5 {
        } else if i == 6 {
        } else if i == 7 {
        } else if i == 8 {
        } else if i == 9 {
        }
    }
}

/// The Windows virtual-key codes of F1 to F12 run from VK_F1 (0x70) on.
pub proof fn law_windows_function_codes()
    ensures
        forall|i: int| 0 <= i < 12 ==> windows_key_of_code((0x70 + i) as u32) == #[trigger] function_keys()[i],
        forall|i: int| 0 <= i < 12 ==> windows_code_of_key(#[trigger] function_keys()[i]) == (0x70 + i) as u16,
{
    assert forall|i: int| 0 <= i < 12 implies windows_key_of_code((0x70 + i) as u32) == #[trigger] function_keys()[i]
        && windows_code_of_key(function_keys()[i]) == (0x70 + i) as u16 by {
        if i == 0 {
        } else if i == 1 {
        } else if i == 2 {
        } else if i == 3 {
        } else if i == 4 {
        } else if i == 5 {
        } else if i == 6 {
        } else if i == 7 {
        } else if i == 8 {
        } else if i == 9 {
        } else if i == 10 {
        } else if i == 11 {
        }
    }
}

/// The Windows virtual-key codes of the numpad digits run from VK_NUMPAD0 (0x60) on.
pub proof fn law_windows_numpad_codes()
    ensures
        forall|i: int| 0 <= i < 10 ==> windows_key_of_code((0x60 + i) as u32) == #[trigger] numpad_digit_keys()[i],
        forall|i: int| 0 <= i < 10 ==> windows_code_of_key(#[trigger] numpad_digit_keys()[i]) == (0x60 + i) as u16,
{
    assert forall|i: int| 0 <= i < 10 implies windows_key_of_code((0x60 + i) as u32) == #[trigger] numpad_digit_keys()[i]
        && windows_code_of_key(numpad_digit_keys()[i]) == (0x60 + i) as u16 by {
        if i == 0 {
        } else if i == 1 {
        } else if i == 2 {
        } else if i == 3 {
        } else if i == 4 {
        } else if i == 5 {
        } else if i == 6 {
        } else if i == 7 {
        } else if i == 8 {
        } else if i == 9 {
        }
    }
}

/// The keys of the digit row of a keyboard, left to right.
pub open spec fn evdev_digit_row() -> Seq<VirtualKey> {
    seq![
        VirtualKey::Key1,
        VirtualKey::Key2,
        VirtualKey::Key3,
        VirtualKey::Key4,
        VirtualKey::Key5,
        VirtualKey::Key6,
        VirtualKey::Key7,
        VirtualKey::Key8,
        VirtualKey::Key9,
        VirtualKey::Key0,
    ]
}

/// The letter keys of the top letter row of a QWERTY keyboard, left to right.
pub open spec fn evdev_top_letter_row() -> Seq<VirtualKey> {
    seq![
        VirtualKey::Q,
        VirtualKey::W,
        VirtualKey::E,
        VirtualKey::R,
        VirtualKey::T,
        VirtualKey::Y,
        VirtualKey::U,
        VirtualKey::I,
        VirtualKey::O,
        VirtualKey::P,
    ]
}

/// The letter keys of the home row of a QWERTY keyboard, left to right.
pub open spec fn evdev_home_row() -> Seq<VirtualKey> {
    seq![
        VirtualKey::A,
        VirtualKey::S,
        VirtualKey::D,
        VirtualKey::F,
        VirtualKey::G,
        VirtualKey::H,
        VirtualKey::J,
        VirtualKey::K,
        VirtualKey::L,
    ]
}

/// The letter keys of the bottom row of a QWERTY keyboard, left to right.
pub open spec fn evdev_bottom_row() -> Seq<VirtualKey> {
    seq![
        VirtualKey::Z,
        VirtualKey::X,
        VirtualKey::C,
        VirtualKey::V,
        VirtualKey::B,
        VirtualKey::N,
        VirtualKey::M,
    ]
}

/// The numpad keys in the order of their Linux input codes, KEY_KP7 to KEY_KPDOT.
pub open spec fn evdev_numpad_block() -> Seq<VirtualKey> {
    seq![
        VirtualKey::Numpad7,
        VirtualKey::Numpad8,
        VirtualKey::Numpad9,
        VirtualKey::NumpadSubtract,
        VirtualKey::Numpad4,
        VirtualKey::Numpad5,
        VirtualKey::Numpad6,
        VirtualKey::NumpadAdd,
        VirtualKey::Numpad1,
        VirtualKey::Numpad2,
        VirtualKey::Numpad3,
        VirtualKey::Numpad0,
        VirtualKey::NumpadDecimal,
    ]
}

/// The Linux input codes of the digit row run from KEY_1 (2) to KEY_0 (11), left to right.
pub proof fn law_evdev_digit_row()
    ensures
        forall|i: int| 0 <= i < 10 ==> evdev_key_of_code((2 + i) as u16) == #[trigger] evdev_digit_row()[i],
        forall|i: int| 0 <= i < 10 ==> evdev_code_of_key(#[trigger] evdev_digit_row()[i]) == Some((2 + i) as u16),
{
    assert forall|i: int| 0 <= i < 10 implies evdev_key_of_code((2 + i) as u16) == #[trigger] evdev_digit_row()[i]
        && evdev_code_of_key(evdev_digit_row()[i]) == Some((2 + i) as u16) by {
        if i == 0 {
        } else if i == 1 {
        } else if i == 2 {
        } else if i == 3 {
        } else if i == 4 {
        } else if i == 5 {
        } else if i == 6 {
        } else if i == 7 {
        } else if i == 8 {
        } else if i == 9 {
        }
    }
}

/// The Linux input codes of the top letter row run from KEY_Q (16) to KEY_P (25), left to right.
pub proof fn law_evdev_top_letter_row()
    ensures
        forall|i: int| 0 <= i < 10 ==> evdev_key_of_code((16 + i) as u16) == #[trigger] evdev_top_letter_row()[i],
        forall|i: int| 0 <= i < 10 ==> evdev_code_of_key(#[trigger] evdev_top_letter_row()[i]) == Some((16 + i) as u16),
{
    assert forall|i: int| 0 <= i < 10 implies evdev_key_of_code((16 + i) as u16) == #[trigger] evdev_top_letter_row()[i]
        && evdev_code_of_key(evdev_top_letter_row()[i]) == Some((16 + i) as u16) by {
        if i == 0 {
        } else if i == 1 {
        } else if i == 2 {
        } else if i == 3 {
        } else if i == 4 {
        } else if i == 5 {
        } else if i == 6 {
        } else if i == 7 {
        } else if i == 8 {
        } else if i == 9 {
        }
    }
}

/// The Linux input codes of the home row run from KEY_A (30) to KEY_L (38), left to right.
pub proof fn law_evdev_home_row()
    ensures
        forall|i: int| 0 <= i < 9 ==> evdev_key_of_code((30 + i) as u16) == #[trigger] evdev_home_row()[i],
        forall|i: int| 0 <= i < 9 ==> evdev_code_of_key(#[trigger] evdev_home_row()[i]) == Some((30 + i) as u16),
{
    assert forall|i: int| 0 <= i < 9 implies evdev_key_of_code((30 + i) as u16) == #[trigger] evdev_home_row()[i]
        && evdev_code_of_key(evdev_home_row()[i]) == Some((30 + i) as u16) by {
        if i == 0 {
        } else if i == 1 {
        } else if i == 2 {
        } else if i == 3 {
        } else if i == 4 {
        } else if i == 5 {
        } else if i == 6 {
        } else if i == 7 {
        } else if i == 8 {
        }
    }
}

/// The Linux input codes of the bottom row run from KEY_Z (44) to KEY_M (50), left to right.
pub proof fn law_evdev_bottom_row()
    ensures
        forall|i: int| 0 <= i < 7 ==> evdev_key_of_code((44 + i) as u16) == #[trigger] evdev_bottom_row()[i],
        forall|i: int| 0 <= i < 7 ==> evdev_code_of_key(#[trigger] evdev_bottom_row()[i]) == Some((44 + i) as u16),
{
    assert forall|i: int| 0 <= i < 7 implies evdev_key_of_code((44 + i) as u16) == #[trigger] evdev_bottom_row()[i]
        && evdev_code_of_key(evdev_bottom_row()[i]) == Some((44 + i) as u16) by {
        if i == 0 {
        } else if i == 1 {
        } else if i == 2 {
        } else if i == 3 {
        } else if i == 4 {
        } else if i == 5 {
        } else if i == 6 {
        }
    }
}

/// The Linux input codes of F1 to F10 run from KEY_F1 (59) on.
pub proof fn law_evdev_function_keys()
    ensures
        forall|i: int| 0 <= i < 10 ==> evdev_key_of_code((59 + i) as u16) == #[trigger] function_keys()[i],
        forall|i: int| 0 <= i < 10 ==> evdev_code_of_key(#[trigger] function_keys()[i]) == Some((59 + i) as u16),
{
    assert forall|i: int| 0 <= i < 10 implies evdev_key_of_code((59 + i) as u16) == #[trigger] function_keys()[i]
        && evdev_code_of_key(function_keys()[i]) == Some((59 + i) as u16) by {
        if i == 0 {
        } else if i == 1 {
        } else if i == 2 {
        } else if i == 3 {
        } else if i == 4 {
        } else if i == 5 {
        } else if i == 6 {
        } else if i == 7 {
        } else if i == 8 {
        } else if i == 9 {
        }
    }
}

/// The Linux input codes of the numpad run from KEY_KP7 (71) to KEY_KPDOT (83).
pub proof fn law_evdev_numpad_block()
    ensures
        forall|i: int| 0 <= i < 13 ==> evdev_key_of_code((71 + i) as u16) == #[trigger] evdev_numpad_block()[i],
        forall|i: int| 0 <= i < 13 ==> evdev_code_of_key(#[trigger] evdev_numpad_block()[i]) == Some((71 + i) as u16),
{
    assert forall|i: int| 0 <= i < 13 implies evdev_key_of_code((71 + i) as u16) == #[trigger] evdev_numpad_block()[i]
        && evdev_code_of_key(evdev_numpad_block()[i]) == Some((71 + i) as u16) by {
        if i == 0 {
        } else if i == 1 {
        } else if i == 2 {
        } else if i == 3 {
        } else if i == 4 {
        } else if i == 5 {
        } else if i == 6 {
        } else if i == 7 {
        } else if i == 8 {
        } else if i == 9 {
        } else if i == 10 {
        } else if i == 11 {
        } else if i == 12 {
        }
    }
}

/// The keys of the macOS key codes 0 to 9 (kVK_ANSI_A to kVK_ANSI_V), in code order.
pub open spec fn mac_first_codes() -> Seq<VirtualKey> {
    seq![
        VirtualKey::A,
        VirtualKey::S,
        VirtualKey::D,
        VirtualKey::F,
        VirtualKey::H,
        VirtualKey::G,
        VirtualKey::Z,
        VirtualKey::X,
        VirtualKey::C,
        VirtualKey::V,
    ]
}

/// The keys of the macOS key codes 11 to 17 (kVK_ANSI_B to kVK_ANSI_T), in code order.
pub open spec fn mac_second_codes() -> Seq<VirtualKey> {
    seq![
        VirtualKey::B,
        VirtualKey::Q,
        VirtualKey::W,
        VirtualKey::E,
        VirtualKey::R,
        VirtualKey::Y,
        VirtualKey::T,
    ]
}

/// The macOS key codes 0 to 9 are A, S, D, F, H, G, Z, X, C and V.
pub proof fn law_mac_first_codes()
    ensures
        forall|i: int| 0 <= i < 10 ==> mac_key_of_code((0 + i) as u16) == #[trigger] mac_first_codes()[i],
{
    assert forall|i: int| 0 <= i < 10 implies mac_key_of_code((0 + i) as u16) == #[trigger] mac_first_codes()[i] by {
        if i == 0 {
        } else if i == 1 {
        } else if i == 2 {
        } else if i == 3 {
        } else if i == 4 {
        } else if i == 5 {
        } else if i == 6 {
        } else if i == 7 {
        } else if i == 8 {
        } else if i == 9 {
        }
    }
}

/// The macOS key codes 11 to 17 are B, Q, W, E, R, Y and T.
pub proof fn law_mac_second_codes()
    ensures
        forall|i: int| 0 <= i < 7 ==> mac_key_of_code((11 + i) as u16) == #[trigger] mac_second_codes()[i],
{
    assert forall|i: int| 0 <= i < 7 implies mac_key_of_code((11 + i) as u16) == #[trigger] mac_second_codes()[i] by {
        if i == 0 {
        } else if i == 1 {
        } else if i == 2 {
        } else if i == 3 {
        } else if i == 4 {
        } else if i == 5 {
        } else if i == 6 {
        }
    }
}

/// The keys of the Windows virtual-key codes VK_SPACE (0x20) to VK_DOWN (0x28), in code order.
pub open spec fn windows_navigation_keys() -> Seq<VirtualKey> {
    seq![
        VirtualKey::Space,
        VirtualKey::PageUp,
        VirtualKey::PageDown,
        VirtualKey::End,
        VirtualKey::Home,
        VirtualKey::Left,
        VirtualKey::Up,
        VirtualKey::Right,
        VirtualKey::Down,
    ]
}

/// The keys of the Windows virtual-key codes VK_SHIFT (0x10) to VK_CAPITAL (0x14), in code order.
pub open spec fn windows_modifier_keys() -> Seq<VirtualKey> {
    seq![
        VirtualKey::Shift,
        VirtualKey::Control,
        VirtualKey::Alt,
        VirtualKey::Pause,
        VirtualKey::CapsLock,
    ]
}

/// Space, the page keys, End, Home and the arrow keys have the Windows virtual-key codes 0x20 to 0x28, in that order.
pub proof fn law_windows_navigation_codes()
    ensures
        forall|i: int| 0 <= i < 9 ==> windows_key_of_code((0x20 + i) as u32) == #[trigger] windows_navigation_keys()[i],
        forall|i: int| 0 <= i < 9 ==> windows_code_of_key(#[trigger] windows_navigation_keys()[i]) == (0x20 + i) as u16,
{
    assert forall|i: int| 0 <= i < 9 implies windows_key_of_code((0x20 + i) as u32) == #[trigger] windows_navigation_keys()[i]
        && windows_code_of_key(windows_navigation_keys()[i]) == (0x20 + i) as u16 by {
        if i == 0 {
        } else if i == 1 {
        } else if i == 2 {
        } else if i == 3 {
        } else if i == 4 {
        } else if i == 5 {
        } else if i == 6 {
        } else if i == 7 {
        } else if i == 8 {
        }
    }
}

/// Shift, Control, Alt, Pause and Caps Lock have the Windows virtual-key codes 0x10 to 0x14, in that order.
pub proof fn law_windows_modifier_codes()
    ensures
        forall|i: int| 0 <= i < 5 ==> windows_key_of_code((0x10 + i) as u32) == #[trigger] windows_modifier_keys()[i],
        forall|i: int| 0 <= i < 5 ==> windows_code_of_key(#[trigger] windows_modifier_keys()[i]) == (0x10 + i) as u16,
{
    assert forall|i: int| 0 <= i < 5 implies windows_key_of_code((0x10 + i) as u32) == #[trigger] windows_modifier_keys()[i]
        && windows_code_of_key(windows_modifier_keys()[i]) == (0x10 + i) as u16 by {
        if i == 0 {
        } else if i == 1 {
        } else if i == 2 {
        } else if i == 3 {
        } else if i == 4 {
        }
    }
}

/// The function keys F11 and F12.
pub open spec fn evdev_late_function_keys() -> Seq<VirtualKey> {
    seq![
        VirtualKey::F11,
        VirtualKey::F12,
    ]
}

/// F11 and F12 have the Linux input codes KEY_F11 (87) and KEY_F12 (88).
pub proof fn law_evdev_late_function_keys()
    ensures
        forall|i: int| 0 <= i < 2 ==> evdev_key_of_code((87 + i) as u16) == #[trigger] evdev_late_function_keys()[i],
        forall|i: int| 0 <= i < 2 ==> evdev_code_of_key(#[trigger] evdev_late_function_keys()[i]) == Some((87 + i) as u16),
{
    assert forall|i: int| 0 <= i < 2 implies evdev_key_of_code((87 + i) as u16) == #[trigger] evdev_late_function_keys()[i]
        && evdev_code_of_key(evdev_late_function_keys()[i]) == Some((87 + i) as u16) by {
        if i == 0 {
        } else if i == 1 {
        }
    }
}

/// The keys of the Linux input codes KEY_UP (103) to KEY_DOWN (108), in code order.
pub open spec fn evdev_arrow_keys() -> Seq<VirtualKey> {
    seq![
        VirtualKey::Up,
        VirtualKey::PageUp,
        VirtualKey::Left,
        VirtualKey::Right,
        VirtualKey::End,
        VirtualKey::Down,
    ]
}

/// Up, Page Up, Left, Right, End and Down have the Linux input codes 103 to 108, in that order.
pub proof fn law_evdev_arrow_codes()
    ensures
        forall|i: int| 0 <= i < 6 ==> evdev_key_of_code((103 + i) as u16) == #[trigger] evdev_arrow_keys()[i],
        forall|i: int| 0 <= i < 6 ==> evdev_code_of_key(#[trigger] evdev_arrow_keys()[i]) == Some((103 + i) as u16),
{
    assert forall|i: int| 0 <= i < 6 implies evdev_key_of_code((103 + i) as u16) == #[trigger] evdev_arrow_keys()[i]
        && evdev_code_of_key(evdev_arrow_keys()[i]) == Some((103 + i) as u16) by {
        if i == 0 {
        } else if i == 1 {
        } else if i == 2 {
        } else if i == 3 {
        } else if i == 4 {
        } else if i == 5 {
        }
    }
}

/// A key decoded from a Windows virtual-key code is sent back as the same
/// code, for every 16-bit code but those of the Windows keys, which have
/// no code to send.
pub proof fn law_windows_code_round_trip(code: u32)
    requires
        code < 0x10000,
        code != 0x5B,
        code != 0x5C,
    ensures
        windows_code_of_key(windows_key_of_code(code)) == code as u16,
{
    assert(code as u16 == code);
}

/// A key emitted as a Linux input key code reads back as the same key.
pub proof fn law_evdev_key_round_trip(key: VirtualKey)
    ensures
        evdev_code_of_key(key) matches Some(code) ==> evdev_key_of_code(code) == key,
{
}

/// A Linux input key code that has a key is emitted back as the same code,
/// except that right-hand modifiers come back as their left-hand keys.
pub proof fn law_evdev_code_round_trip(code: u16)
    requires
        !(evdev_key_of_code(code) is Unknown),
    ensures
        evdev_code_of_key(evdev_key_of_code(code)) == Some(
            if code == 54 { 42u16 } else if code == 97 { 29u16 } else if code == 100 { 56u16 } else { code },
        ),
{
}

} // verus!
