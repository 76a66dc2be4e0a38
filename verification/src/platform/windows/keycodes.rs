//! Windows virtual key codes.
//!
//! The `VK_*` codes of `winuser.h` (a `u16`) and the canonical [`KeyCode`].
//!
//! Injection is the defining table: [`win_vkcode`] gives each canonical key
//! its native code and the extra `KEYBDINPUT.dwFlags` bits it needs, the
//! left-hand code for a modifier. Capture, [`win_key`], is its inverse,
//! widened by the right-hand and the side-less modifier codes. The main and
//! the keypad Enter share one code and differ in the extended-key bit alone.

use crate::platform::KeyCode;
use vstd::prelude::*;

verus! {

/// `KEYEVENTF_EXTENDEDKEY`: set in `KEYBDINPUT.dwFlags` for extended keys.
pub const EXTENDED: u32 = 0x0001;

/// `VK_RETURN`, the code that the main and the keypad Enter share.
pub const VK_RETURN: u16 = 0x0D;

/// The native code and the extra flag bits that are injected for `key`.
pub open spec fn win_vkcode(key: KeyCode) -> (u16, u32) {
    match key {
        // Letters
        KeyCode::A => (0x41u16, 0u32),
        KeyCode::B => (0x42u16, 0u32),
        KeyCode::C => (0x43u16, 0u32),
        KeyCode::D => (0x44u16, 0u32),
        KeyCode::E => (0x45u16, 0u32),
        KeyCode::F => (0x46u16, 0u32),
        KeyCode::G => (0x47u16, 0u32),
        KeyCode::H => (0x48u16, 0u32),
        KeyCode::I => (0x49u16, 0u32),
        KeyCode::J => (0x4Au16, 0u32),
        KeyCode::K => (0x4Bu16, 0u32),
        KeyCode::L => (0x4Cu16, 0u32),
        KeyCode::M => (0x4Du16, 0u32),
        KeyCode::N => (0x4Eu16, 0u32),
        KeyCode::O => (0x4Fu16, 0u32),
        KeyCode::P => (0x50u16, 0u32),
        KeyCode::Q => (0x51u16, 0u32),
        KeyCode::R => (0x52u16, 0u32),
        KeyCode::S => (0x53u16, 0u32),
        KeyCode::T => (0x54u16, 0u32),
        KeyCode::U => (0x55u16, 0u32),
        KeyCode::V => (0x56u16, 0u32),
        KeyCode::W => (0x57u16, 0u32),
        KeyCode::X => (0x58u16, 0u32),
        KeyCode::Y => (0x59u16, 0u32),
        KeyCode::Z => (0x5Au16, 0u32),
        // Top-row digits
        KeyCode::Key1 => (0x31u16, 0u32),
        KeyCode::Key2 => (0x32u16, 0u32),
        KeyCode::Key3 => (0x33u16, 0u32),
        KeyCode::Key4 => (0x34u16, 0u32),
        KeyCode::Key5 => (0x35u16, 0u32),
        KeyCode::Key6 => (0x36u16, 0u32),
        KeyCode::Key7 => (0x37u16, 0u32),
        KeyCode::Key8 => (0x38u16, 0u32),
        KeyCode::Key9 => (0x39u16, 0u32),
        KeyCode::Key0 => (0x30u16, 0u32),
        // Function keys
        KeyCode::F1 => (0x70u16, 0u32),
        KeyCode::F2 => (0x71u16, 0u32),
        KeyCode::F3 => (0x72u16, 0u32),
        KeyCode::F4 => (0x73u16, 0u32),
        KeyCode::F5 => (0x74u16, 0u32),
        KeyCode::F6 => (0x75u16, 0u32),
        KeyCode::F7 => (0x76u16, 0u32),
        KeyCode::F8 => (0x77u16, 0u32),
        KeyCode::F9 => (0x78u16, 0u32),
        KeyCode::F10 => (0x79u16, 0u32),
        KeyCode::F11 => (0x7Au16, 0u32),
        KeyCode::F12 => (0x7Bu16, 0u32),
        KeyCode::F13 => (0x7Cu16, 0u32),
        KeyCode::F14 => (0x7Du16, 0u32),
        KeyCode::F15 => (0x7Eu16, 0u32),
        KeyCode::F16 => (0x7Fu16, 0u32),
        KeyCode::F17 => (0x80u16, 0u32),
        KeyCode::F18 => (0x81u16, 0u32),
        KeyCode::F19 => (0x82u16, 0u32),
        KeyCode::F20 => (0x83u16, 0u32),
        KeyCode::F21 => (0x84u16, 0u32),
        KeyCode::F22 => (0x85u16, 0u32),
        KeyCode::F23 => (0x86u16, 0u32),
        KeyCode::F24 => (0x87u16, 0u32),
        // Modifiers
        KeyCode::Ctrl => (0xA2u16, 0u32),
        KeyCode::Shift => (0xA0u16, 0u32),
        KeyCode::Alt => (0xA4u16, 0u32),
        KeyCode::Meta => (0x5Bu16, 0u32),
        // Navigation and editing
        KeyCode::Space => (0x20u16, 0u32),
        KeyCode::Enter => (0x0Du16, 0u32),
        KeyCode::Tab => (0x09u16, 0u32),
        KeyCode::Escape => (0x1Bu16, 0u32),
        KeyCode::Backspace => (0x08u16, 0u32),
        KeyCode::Delete => (0x2Eu16, EXTENDED),
        KeyCode::Insert => (0x2Du16, EXTENDED),
        KeyCode::Home => (0x24u16, EXTENDED),
        KeyCode::End => (0x23u16, EXTENDED),
        KeyCode::PageUp => (0x21u16, EXTENDED),
        KeyCode::PageDown => (0x22u16, EXTENDED),
        KeyCode::Up => (0x26u16, EXTENDED),
        KeyCode::Down => (0x28u16, EXTENDED),
        KeyCode::Left => (0x25u16, EXTENDED),
        KeyCode::Right => (0x27u16, EXTENDED),
        // Lock and system keys
        KeyCode::CapsLock => (0x14u16, 0u32),
        KeyCode::NumLock => (0x90u16, 0u32),
        KeyCode::ScrollLock => (0x91u16, 0u32),
        KeyCode::PrintScreen => (0x2Cu16, 0u32),
        KeyCode::Pause => (0x13u16, 0u32),
        // Numeric keypad
        KeyCode::Numpad0 => (0x60u16, 0u32),
        KeyCode::Numpad1 => (0x61u16, 0u32),
        KeyCode::Numpad2 => (0x62u16, 0u32),
        KeyCode::Numpad3 => (0x63u16, 0u32),
        KeyCode::Numpad4 => (0x64u16, 0u32),
        KeyCode::Numpad5 => (0x65u16, 0u32),
        KeyCode::Numpad6 => (0x66u16, 0u32),
        KeyCode::Numpad7 => (0x67u16, 0u32),
        KeyCode::Numpad8 => (0x68u16, 0u32),
        KeyCode::Numpad9 => (0x69u16, 0u32),
        KeyCode::NumpadAdd => (0x6Bu16, 0u32),
        KeyCode::NumpadSub => (0x6Du16, 0u32),
        KeyCode::NumpadMul => (0x6Au16, 0u32),
        KeyCode::NumpadDiv => (0x6Fu16, EXTENDED),
        KeyCode::NumpadEnter => (0x0Du16, EXTENDED),
        // Punctuation and symbols
        KeyCode::Backtick => (0xC0u16, 0u32),
        KeyCode::Minus => (0xBDu16, 0u32),
        KeyCode::Equal => (0xBBu16, 0u32),
        KeyCode::LeftBracket => (0xDBu16, 0u32),
        KeyCode::RightBracket => (0xDDu16, 0u32),
        KeyCode::Backslash => (0xDCu16, 0u32),
        KeyCode::Semicolon => (0xBAu16, 0u32),
        KeyCode::Apostrophe => (0xDEu16, 0u32),
        KeyCode::Comma => (0xBCu16, 0u32),
        KeyCode::Period => (0xBEu16, 0u32),
        KeyCode::Slash => (0xBFu16, 0u32),
    }
}

/// The native code of the right-hand instance of a modifier.
pub open spec fn win_right_vkcode(key: KeyCode) -> Option<u16> {
    match key {
        KeyCode::Shift => Some(0xA1u16),
        KeyCode::Ctrl => Some(0xA3u16),
        KeyCode::Alt => Some(0xA5u16),
        KeyCode::Meta => Some(0x5Cu16),
        _ => None,
    }
}

/// The native code that stands for either instance of a modifier.
pub open spec fn win_sideless_vkcode(key: KeyCode) -> Option<u16> {
    match key {
        KeyCode::Shift => Some(0x10u16),
        KeyCode::Ctrl => Some(0x11u16),
        KeyCode::Alt => Some(0x12u16),
        _ => None,
    }
}

/// Whether a physical key with native code `vk` and extended-key bit
/// `extended` has the canonical identity `key`. The bit is read for
/// `VK_RETURN` only.
pub open spec fn win_names(vk: u16, extended: bool, key: KeyCode) -> bool {
    ||| vk == win_vkcode(key).0 && (vk == VK_RETURN ==> extended == (key == KeyCode::NumpadEnter))
    ||| win_right_vkcode(key) == Some(vk)
    ||| win_sideless_vkcode(key) == Some(vk)
}

/// The canonical identity of native code `vk` with extended-key bit
/// `extended`, if it has one.
pub open spec fn win_key(vk: u16, extended: bool) -> Option<KeyCode> {
    if exists|key: KeyCode| win_names(vk, extended, key) {
        Some(choose|key: KeyCode| win_names(vk, extended, key))
    } else {
        None
    }
}

/// A native code names at most one canonical key, so the key it names is its identity.
pub proof fn lemma_win_key_is(vk: u16, extended: bool, key: KeyCode)
    requires
        win_names(vk, extended, key),
    ensures
        win_key(vk, extended) == Some(key),
{
    let chosen = choose|k: KeyCode| win_names(vk, extended, k);
    assert(win_names(vk, extended, chosen));
}

/// Converts a Windows virtual key code and extended-key bit to the canonical key.
///
/// `extended` is bit 0 (`LLKHF_EXTENDED`) of `KBDLLHOOKSTRUCT.flags`. `None`
/// for codes without a canonical identity: the hook lets such events through.
pub fn vkcode_to_keycode(vk: u16, extended: bool) -> (key: Option<KeyCode>)
    ensures
        key == win_key(vk, extended),
        key matches Some(named) ==> win_names(vk, extended, named),
        key is None ==> forall|any: KeyCode| !win_names(vk, extended, any),
{
    let key = match vk {
        // Letters
        0x41 => Some(KeyCode::A),
        0x42 => Some(KeyCode::B),
        0x43 => Some(KeyCode::C),
        0x44 => Some(KeyCode::D),
        0x45 => Some(KeyCode::E),
        0x46 => Some(KeyCode::F),
        0x47 => Some(KeyCode::G),
        0x48 => Some(KeyCode::H),
        0x49 => Some(KeyCode::I),
        0x4A => Some(KeyCode::J),
        0x4B => Some(KeyCode::K),
        0x4C => Some(KeyCode::L),
        0x4D => Some(KeyCode::M),
        0x4E => Some(KeyCode::N),
        0x4F => Some(KeyCode::O),
        0x50 => Some(KeyCode::P),
        0x51 => Some(KeyCode::Q),
        0x52 => Some(KeyCode::R),
        0x53 => Some(KeyCode::S),
        0x54 => Some(KeyCode::T),
        0x55 => Some(KeyCode::U),
        0x56 => Some(KeyCode::V),
        0x57 => Some(KeyCode::W),
        0x58 => Some(KeyCode::X),
        0x59 => Some(KeyCode::Y),
        0x5A => Some(KeyCode::Z),
        // Top-row digits
        0x30 => Some(KeyCode::Key0),
        0x31 => Some(KeyCode::Key1),
        0x32 => Some(KeyCode::Key2),
        0x33 => Some(KeyCode::Key3),
        0x34 => Some(KeyCode::Key4),
        0x35 => Some(KeyCode::Key5),
        0x36 => Some(KeyCode::Key6),
        0x37 => Some(KeyCode::Key7),
        0x38 => Some(KeyCode::Key8),
        0x39 => Some(KeyCode::Key9),
        // Function keys
        0x70 => Some(KeyCode::F1),
        0x71 => Some(KeyCode::F2),
        0x72 => Some(KeyCode::F3),
        0x73 => Some(KeyCode::F4),
        0x74 => Some(KeyCode::F5),
        0x75 => Some(KeyCode::F6),
        0x76 => Some(KeyCode::F7),
        0x77 => Some(KeyCode::F8),
        0x78 => Some(KeyCode::F9),
        0x79 => Some(KeyCode::F10),
        0x7A => Some(KeyCode::F11),
        0x7B => Some(KeyCode::F12),
        0x7C => Some(KeyCode::F13),
        0x7D => Some(KeyCode::F14),
        0x7E => Some(KeyCode::F15),
        0x7F => Some(KeyCode::F16),
        0x80 => Some(KeyCode::F17),
        0x81 => Some(KeyCode::F18),
        0x82 => Some(KeyCode::F19),
        0x83 => Some(KeyCode::F20),
        0x84 => Some(KeyCode::F21),
        0x85 => Some(KeyCode::F22),
        0x86 => Some(KeyCode::F23),
        0x87 => Some(KeyCode::F24),
        // Modifiers
        0x10 | 0xA0 | 0xA1 => Some(KeyCode::Shift),
        0x11 | 0xA2 | 0xA3 => Some(KeyCode::Ctrl),
        0x12 | 0xA4 | 0xA5 => Some(KeyCode::Alt),
        0x5B | 0x5C => Some(KeyCode::Meta),
        // Navigation and editing
        0x20 => Some(KeyCode::Space),
        0x0D if extended => Some(KeyCode::NumpadEnter),
        0x0D => Some(KeyCode::Enter),
        0x09 => Some(KeyCode::Tab),
        0x1B => Some(KeyCode::Escape),
        0x08 => Some(KeyCode::Backspace),
        0x2E => Some(KeyCode::Delete),
        0x2D => Some(KeyCode::Insert),
        0x24 => Some(KeyCode::Home),
        0x23 => Some(KeyCode::End),
        0x21 => Some(KeyCode::PageUp),
        0x22 => Some(KeyCode::PageDown),
        0x26 => Some(KeyCode::Up),
        0x28 => Some(KeyCode::Down),
        0x25 => Some(KeyCode::Left),
        0x27 => Some(KeyCode::Right),
        // Lock and system keys
        0x14 => Some(KeyCode::CapsLock),
        0x90 => Some(KeyCode::NumLock),
        0x91 => Some(KeyCode::ScrollLock),
        0x2C => Some(KeyCode::PrintScreen),
        0x13 => Some(KeyCode::Pause),
        // Numeric keypad
        0x60 => Some(KeyCode::Numpad0),
        0x61 => Some(KeyCode::Numpad1),
        0x62 => Some(KeyCode::Numpad2),
        0x63 => Some(KeyCode::Numpad3),
        0x64 => Some(KeyCode::Numpad4),
        0x65 => Some(KeyCode::Numpad5),
        0x66 => Some(KeyCode::Numpad6),
        0x67 => Some(KeyCode::Numpad7),
        0x68 => Some(KeyCode::Numpad8),
        0x69 => Some(KeyCode::Numpad9),
        0x6B => Some(KeyCode::NumpadAdd),
        0x6D => Some(KeyCode::NumpadSub),
        0x6A => Some(KeyCode::NumpadMul),
        0x6F => Some(KeyCode::NumpadDiv),
        // Punctuation and symbols
        0xC0 => Some(KeyCode::Backtick),
        0xBD => Some(KeyCode::Minus),
        0xBB => Some(KeyCode::Equal),
        0xDB => Some(KeyCode::LeftBracket),
        0xDD => Some(KeyCode::RightBracket),
        0xDC => Some(KeyCode::Backslash),
        0xBA => Some(KeyCode::Semicolon),
        0xDE => Some(KeyCode::Apostrophe),
        0xBC => Some(KeyCode::Comma),
        0xBE => Some(KeyCode::Period),
        0xBF => Some(KeyCode::Slash),
        _ => None,
    };
    proof {
        match key {
            Some(k) => {
                lemma_win_key_is(vk, extended, k);
            },
            None => {
                assert forall|k: KeyCode| !win_names(vk, extended, k) by {}
            },
        }
    }
    key
}

/// Converts a canonical key to the Windows virtual key code to inject, with
/// the extra `dwFlags` bits for `KEYBDINPUT`.
///
/// Every canonical key has a code. Navigation keys, the keypad Enter and the
/// keypad divide carry [`EXTENDED`]; a modifier is injected as its left-hand
/// key.
pub fn keycode_to_vkcode(key: KeyCode) -> (native: Option<(u16, u32)>)
    ensures
        native == Some(win_vkcode(key)),
{
    let (vk, flags): (u16, u32) = match key {
        // Letters
        KeyCode::A => (0x41, 0),
        KeyCode::B => (0x42, 0),
        KeyCode::C => (0x43, 0),
        KeyCode::D => (0x44, 0),
        KeyCode::E => (0x45, 0),
        KeyCode::F => (0x46, 0),
        KeyCode::G => (0x47, 0),
        KeyCode::H => (0x48, 0),
        KeyCode::I => (0x49, 0),
        KeyCode::J => (0x4A, 0),
        KeyCode::K => (0x4B, 0),
        KeyCode::L => (0x4C, 0),
        KeyCode::M => (0x4D, 0),
        KeyCode::N => (0x4E, 0),
        KeyCode::O => (0x4F, 0),
        KeyCode::P => (0x50, 0),
        KeyCode::Q => (0x51, 0),
        KeyCode::R => (0x52, 0),
        KeyCode::S => (0x53, 0),
        KeyCode::T => (0x54, 0),
        KeyCode::U => (0x55, 0),
        KeyCode::V => (0x56, 0),
        KeyCode::W => (0x57, 0),
        KeyCode::X => (0x58, 0),
        KeyCode::Y => (0x59, 0),
        KeyCode::Z => (0x5A, 0),
        // Top-row digits
        KeyCode::Key1 => (0x31, 0),
        KeyCode::Key2 => (0x32, 0),
        KeyCode::Key3 => (0x33, 0),
        KeyCode::Key4 => (0x34, 0),
        KeyCode::Key5 => (0x35, 0),
        KeyCode::Key6 => (0x36, 0),
        KeyCode::Key7 => (0x37, 0),
        KeyCode::Key8 => (0x38, 0),
        KeyCode::Key9 => (0x39, 0),
        KeyCode::Key0 => (0x30, 0),
        // Function keys
        KeyCode::F1 => (0x70, 0),
        KeyCode::F2 => (0x71, 0),
        KeyCode::F3 => (0x72, 0),
        KeyCode::F4 => (0x73, 0),
        KeyCode::F5 => (0x74, 0),
        KeyCode::F6 => (0x75, 0),
        KeyCode::F7 => (0x76, 0),
        KeyCode::F8 => (0x77, 0),
        KeyCode::F9 => (0x78, 0),
        KeyCode::F10 => (0x79, 0),
        KeyCode::F11 => (0x7A, 0),
        KeyCode::F12 => (0x7B, 0),
        KeyCode::F13 => (0x7C, 0),
        KeyCode::F14 => (0x7D, 0),
        KeyCode::F15 => (0x7E, 0),
        KeyCode::F16 => (0x7F, 0),
        KeyCode::F17 => (0x80, 0),
        KeyCode::F18 => (0x81, 0),
        KeyCode::F19 => (0x82, 0),
        KeyCode::F20 => (0x83, 0),
        KeyCode::F21 => (0x84, 0),
        KeyCode::F22 => (0x85, 0),
        KeyCode::F23 => (0x86, 0),
        KeyCode::F24 => (0x87, 0),
        // Modifiers
        KeyCode::Ctrl => (0xA2, 0),
        KeyCode::Shift => (0xA0, 0),
        KeyCode::Alt => (0xA4, 0),
        KeyCode::Meta => (0x5B, 0),
        // Navigation and editing
        KeyCode::Space => (0x20, 0),
        KeyCode::Enter => (0x0D, 0),
        KeyCode::Tab => (0x09, 0),
        KeyCode::Escape => (0x1B, 0),
        KeyCode::Backspace => (0x08, 0),
        KeyCode::Delete => (0x2E, EXTENDED),
        KeyCode::Insert => (0x2D, EXTENDED),
        KeyCode::Home => (0x24, EXTENDED),
        KeyCode::End => (0x23, EXTENDED),
        KeyCode::PageUp => (0x21, EXTENDED),
        KeyCode::PageDown => (0x22, EXTENDED),
        KeyCode::Up => (0x26, EXTENDED),
        KeyCode::Down => (0x28, EXTENDED),
        KeyCode::Left => (0x25, EXTENDED),
        KeyCode::Right => (0x27, EXTENDED),
        // Lock and system keys
        KeyCode::CapsLock => (0x14, 0),
        KeyCode::NumLock => (0x90, 0),
        KeyCode::ScrollLock => (0x91, 0),
        KeyCode::PrintScreen => (0x2C, 0),
        KeyCode::Pause => (0x13, 0),
        // Numeric keypad
        KeyCode::Numpad0 => (0x60, 0),
        KeyCode::Numpad1 => (0x61, 0),
        KeyCode::Numpad2 => (0x62, 0),
        KeyCode::Numpad3 => (0x63, 0),
        KeyCode::Numpad4 => (0x64, 0),
        KeyCode::Numpad5 => (0x65, 0),
        KeyCode::Numpad6 => (0x66, 0),
        KeyCode::Numpad7 => (0x67, 0),
        KeyCode::Numpad8 => (0x68, 0),
        KeyCode::Numpad9 => (0x69, 0),
        KeyCode::NumpadAdd => (0x6B, 0),
        KeyCode::NumpadSub => (0x6D, 0),
        KeyCode::NumpadMul => (0x6A, 0),
        KeyCode::NumpadDiv => (0x6F, EXTENDED),
        KeyCode::NumpadEnter => (0x0D, EXTENDED),
        // Punctuation and symbols
        KeyCode::Backtick => (0xC0, 0),
        KeyCode::Minus => (0xBD, 0),
        KeyCode::Equal => (0xBB, 0),
        KeyCode::LeftBracket => (0xDB, 0),
        KeyCode::RightBracket => (0xDD, 0),
        KeyCode::Backslash => (0xDC, 0),
        KeyCode::Semicolon => (0xBA, 0),
        KeyCode::Apostrophe => (0xDE, 0),
        KeyCode::Comma => (0xBC, 0),
        KeyCode::Period => (0xBE, 0),
        KeyCode::Slash => (0xBF, 0),
    };
    Some((vk, flags))
}

/// Capture undoes injection: the native code that is injected for a
/// canonical key, with the extended-key bit that it is injected with, is
/// captured as that key. This holds of every key.
pub proof fn lemma_win_round_trip(key: KeyCode)
    ensures
        win_key(win_vkcode(key).0, win_vkcode(key).1 == EXTENDED) == Some(key),
{
    lemma_win_key_is(win_vkcode(key).0, win_vkcode(key).1 == EXTENDED, key);
}

/// The left-hand and the right-hand instance of a modifier are captured as
/// the same canonical key, whatever the extended-key bit, and so is the code
/// that stands for either instance, where there is one.
pub proof fn lemma_win_modifier_sides(key: KeyCode, extended: bool)
    requires
        key.is_modifier(),
    ensures
        win_key(win_vkcode(key).0, extended) == Some(key),
        win_right_vkcode(key) matches Some(right) && win_key(right, extended) == Some(key),
        win_sideless_vkcode(key) matches Some(either) ==> win_key(either, extended) == Some(key),
{
    lemma_win_key_is(win_vkcode(key).0, extended, key);
    lemma_win_key_is(win_right_vkcode(key)->0, extended, key);
    if win_sideless_vkcode(key) is Some {
        lemma_win_key_is(win_sideless_vkcode(key)->0, extended, key);
    }
}

} // verus!
