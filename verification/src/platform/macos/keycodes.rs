//! macOS virtual key codes.
//!
//! The layout-independent key positions of Apple's `HIToolbox/Events.h`
//! (`CGKeyCode`, a `u16`) and the canonical [`KeyCode`], for an ANSI keyboard.
//!
//! Injection is the defining table: [`mac_vkcode`] gives a canonical key its
//! native code, the left-hand one for a modifier. `F21` to `F24` have none,
//! and neither have `PrintScreen`, `ScrollLock` and `Pause`: an extended
//! keyboard sends the codes of `F13`, `F14` and `F15` for them, and those
//! codes belong to the function keys. A key without code is not injected.
//! Capture, [`mac_key`], is the inverse of the table, widened by the
//! right-hand modifier codes.

use crate::platform::KeyCode;
use vstd::prelude::*;

verus! {

/// The native code that is injected for `key`, if it has one.
pub open spec fn mac_vkcode(key: KeyCode) -> Option<u16> {
    match key {
        // Letters
        KeyCode::A => Some(0x00u16),
        KeyCode::B => Some(0x0Bu16),
        KeyCode::C => Some(0x08u16),
        KeyCode::D => Some(0x02u16),
        KeyCode::E => Some(0x0Eu16),
        KeyCode::F => Some(0x03u16),
        KeyCode::G => Some(0x05u16),
        KeyCode::H => Some(0x04u16),
        KeyCode::I => Some(0x22u16),
        KeyCode::J => Some(0x26u16),
        KeyCode::K => Some(0x28u16),
        KeyCode::L => Some(0x25u16),
        KeyCode::M => Some(0x2Eu16),
        KeyCode::N => Some(0x2Du16),
        KeyCode::O => Some(0x1Fu16),
        KeyCode::P => Some(0x23u16),
        KeyCode::Q => Some(0x0Cu16),
        KeyCode::R => Some(0x0Fu16),
        KeyCode::S => Some(0x01u16),
        KeyCode::T => Some(0x11u16),
        KeyCode::U => Some(0x20u16),
        KeyCode::V => Some(0x09u16),
        KeyCode::W => Some(0x0Du16),
        KeyCode::X => Some(0x07u16),
        KeyCode::Y => Some(0x10u16),
        KeyCode::Z => Some(0x06u16),
        // Top-row digits
        KeyCode::Key1 => Some(0x12u16),
        KeyCode::Key2 => Some(0x13u16),
        KeyCode::Key3 => Some(0x14u16),
        KeyCode::Key4 => Some(0x15u16),
        KeyCode::Key5 => Some(0x17u16),
        KeyCode::Key6 => Some(0x16u16),
        KeyCode::Key7 => Some(0x1Au16),
        KeyCode::Key8 => Some(0x1Cu16),
        KeyCode::Key9 => Some(0x19u16),
        KeyCode::Key0 => Some(0x1Du16),
        // Function keys
        KeyCode::F1 => Some(0x7Au16),
        KeyCode::F2 => Some(0x78u16),
        KeyCode::F3 => Some(0x63u16),
        KeyCode::F4 => Some(0x76u16),
        KeyCode::F5 => Some(0x60u16),
        KeyCode::F6 => Some(0x61u16),
        KeyCode::F7 => Some(0x62u16),
        KeyCode::F8 => Some(0x64u16),
        KeyCode::F9 => Some(0x65u16),
        KeyCode::F10 => Some(0x6Du16),
        KeyCode::F11 => Some(0x67u16),
        KeyCode::F12 => Some(0x6Fu16),
        KeyCode::F13 => Some(0x69u16),
        KeyCode::F14 => Some(0x6Bu16),
        KeyCode::F15 => Some(0x71u16),
        KeyCode::F16 => Some(0x6Au16),
        KeyCode::F17 => Some(0x40u16),
        KeyCode::F18 => Some(0x4Fu16),
        KeyCode::F19 => Some(0x50u16),
        KeyCode::F20 => Some(0x5Au16),
        KeyCode::F21 => None,
        KeyCode::F22 => None,
        KeyCode::F23 => None,
        KeyCode::F24 => None,
        // Modifiers
        KeyCode::Ctrl => Some(0x3Bu16),
        KeyCode::Shift => Some(0x38u16),
        KeyCode::Alt => Some(0x3Au16),
        KeyCode::Meta => Some(0x37u16),
        // Navigation and editing
        KeyCode::Space => Some(0x31u16),
        KeyCode::Enter => Some(0x24u16),
        KeyCode::Tab => Some(0x30u16),
        KeyCode::Escape => Some(0x35u16),
        KeyCode::Backspace => Some(0x33u16),
        KeyCode::Delete => Some(0x75u16),
        KeyCode::Insert => Some(0x72u16),
        KeyCode::Home => Some(0x73u16),
        KeyCode::End => Some(0x77u16),
        KeyCode::PageUp => Some(0x74u16),
        KeyCode::PageDown => Some(0x79u16),
        KeyCode::Up => Some(0x7Eu16),
        KeyCode::Down => Some(0x7Du16),
        KeyCode::Left => Some(0x7Bu16),
        KeyCode::Right => Some(0x7Cu16),
        // Lock and system keys
        KeyCode::CapsLock => Some(0x39u16),
        KeyCode::NumLock => Some(0x47u16),
        KeyCode::ScrollLock => None,
        KeyCode::PrintScreen => None,
        KeyCode::Pause => None,
        // Numeric keypad
        KeyCode::Numpad0 => Some(0x52u16),
        KeyCode::Numpad1 => Some(0x53u16),
        KeyCode::Numpad2 => Some(0x54u16),
        KeyCode::Numpad3 => Some(0x55u16),
        KeyCode::Numpad4 => Some(0x56u16),
        KeyCode::Numpad5 => Some(0x57u16),
        KeyCode::Numpad6 => Some(0x58u16),
        KeyCode::Numpad7 => Some(0x59u16),
        KeyCode::Numpad8 => Some(0x5Bu16),
        KeyCode::Numpad9 => Some(0x5Cu16),
        KeyCode::NumpadAdd => Some(0x45u16),
        KeyCode::NumpadSub => Some(0x4Eu16),
        KeyCode::NumpadMul => Some(0x43u16),
        KeyCode::NumpadDiv => Some(0x4Bu16),
        KeyCode::NumpadEnter => Some(0x4Cu16),
        // Punctuation and symbols
        KeyCode::Backtick => Some(0x32u16),
        KeyCode::Minus => Some(0x1Bu16),
        KeyCode::Equal => Some(0x18u16),
        KeyCode::LeftBracket => Some(0x21u16),
        KeyCode::RightBracket => Some(0x1Eu16),
        KeyCode::Backslash => Some(0x2Au16),
        KeyCode::Semicolon => Some(0x29u16),
        KeyCode::Apostrophe => Some(0x27u16),
        KeyCode::Comma => Some(0x2Bu16),
        KeyCode::Period => Some(0x2Fu16),
        KeyCode::Slash => Some(0x2Cu16),
    }
}

/// The native code of the right-hand instance of a modifier.
pub open spec fn mac_right_vkcode(key: KeyCode) -> Option<u16> {
    match key {
        KeyCode::Ctrl => Some(0x3Eu16),
        KeyCode::Shift => Some(0x3Cu16),
        KeyCode::Alt => Some(0x3Du16),
        KeyCode::Meta => Some(0x36u16),
        _ => None,
    }
}

/// Whether a physical key with native code `vk` has the canonical identity `key`.
pub open spec fn mac_names(vk: u16, key: KeyCode) -> bool {
    mac_vkcode(key) == Some(vk) || mac_right_vkcode(key) == Some(vk)
}

/// The canonical identity of native code `vk`, if it has one.
pub open spec fn mac_key(vk: u16) -> Option<KeyCode> {
    if exists|key: KeyCode| mac_names(vk, key) {
        Some(choose|key: KeyCode| mac_names(vk, key))
    } else {
        None
    }
}

/// A native code names at most one canonical key, so the key it names is its identity.
pub proof fn lemma_mac_key_is(vk: u16, key: KeyCode)
    requires
        mac_names(vk, key),
    ensures
        mac_key(vk) == Some(key),
{
    let chosen = choose|k: KeyCode| mac_names(vk, k);
    assert(mac_names(vk, chosen));
}

/// Converts a macOS virtual key code to the canonical key.
///
/// `None` for codes without a canonical identity (media keys, the keypad
/// decimal point): the tap lets such events through.
pub fn vkcode_to_keycode(vk: u16) -> (key: Option<KeyCode>)
    ensures
        key == mac_key(vk),
        key matches Some(named) ==> mac_names(vk, named),
        key is None ==> forall|any: KeyCode| !mac_names(vk, any),
{
    let key = match vk {
        // Letters
        0x00 => Some(KeyCode::A),
        0x0B => Some(KeyCode::B),
        0x08 => Some(KeyCode::C),
        0x02 => Some(KeyCode::D),
        0x0E => Some(KeyCode::E),
        0x03 => Some(KeyCode::F),
        0x05 => Some(KeyCode::G),
        0x04 => Some(KeyCode::H),
        0x22 => Some(KeyCode::I),
        0x26 => Some(KeyCode::J),
        0x28 => Some(KeyCode::K),
        0x25 => Some(KeyCode::L),
        0x2E => Some(KeyCode::M),
        0x2D => Some(KeyCode::N),
        0x1F => Some(KeyCode::O),
        0x23 => Some(KeyCode::P),
        0x0C => Some(KeyCode::Q),
        0x0F => Some(KeyCode::R),
        0x01 => Some(KeyCode::S),
        0x11 => Some(KeyCode::T),
        0x20 => Some(KeyCode::U),
        0x09 => Some(KeyCode::V),
        0x0D => Some(KeyCode::W),
        0x07 => Some(KeyCode::X),
        0x10 => Some(KeyCode::Y),
        0x06 => Some(KeyCode::Z),
        // Top-row digits
        0x1D => Some(KeyCode::Key0),
        0x12 => Some(KeyCode::Key1),
        0x13 => Some(KeyCode::Key2),
        0x14 => Some(KeyCode::Key3),
        0x15 => Some(KeyCode::Key4),
        0x17 => Some(KeyCode::Key5),
        0x16 => Some(KeyCode::Key6),
        0x1A => Some(KeyCode::Key7),
        0x1C => Some(KeyCode::Key8),
        0x19 => Some(KeyCode::Key9),
        // Function keys
        0x7A => Some(KeyCode::F1),
        0x78 => Some(KeyCode::F2),
        0x63 => Some(KeyCode::F3),
        0x76 => Some(KeyCode::F4),
        0x60 => Some(KeyCode::F5),
        0x61 => Some(KeyCode::F6),
        0x62 => Some(KeyCode::F7),
        0x64 => Some(KeyCode::F8),
        0x65 => Some(KeyCode::F9),
        0x6D => Some(KeyCode::F10),
        0x67 => Some(KeyCode::F11),
        0x6F => Some(KeyCode::F12),
        0x69 => Some(KeyCode::F13),
        0x6B => Some(KeyCode::F14),
        0x71 => Some(KeyCode::F15),
        0x6A => Some(KeyCode::F16),
        0x40 => Some(KeyCode::F17),
        0x4F => Some(KeyCode::F18),
        0x50 => Some(KeyCode::F19),
        0x5A => Some(KeyCode::F20),
        // Modifiers
        0x3B | 0x3E => Some(KeyCode::Ctrl),
        0x38 | 0x3C => Some(KeyCode::Shift),
        0x3A | 0x3D => Some(KeyCode::Alt),
        0x37 | 0x36 => Some(KeyCode::Meta),
        // Navigation and editing
        0x31 => Some(KeyCode::Space),
        0x24 => Some(KeyCode::Enter),
        0x30 => Some(KeyCode::Tab),
        0x35 => Some(KeyCode::Escape),
        0x33 => Some(KeyCode::Backspace),
        0x75 => Some(KeyCode::Delete),
        0x72 => Some(KeyCode::Insert),
        0x73 => Some(KeyCode::Home),
        0x77 => Some(KeyCode::End),
        0x74 => Some(KeyCode::PageUp),
        0x79 => Some(KeyCode::PageDown),
        0x7E => Some(KeyCode::Up),
        0x7D => Some(KeyCode::Down),
        0x7B => Some(KeyCode::Left),
        0x7C => Some(KeyCode::Right),
        // Lock and system keys
        0x39 => Some(KeyCode::CapsLock),
        0x47 => Some(KeyCode::NumLock),
        // Numeric keypad
        0x52 => Some(KeyCode::Numpad0),
        0x53 => Some(KeyCode::Numpad1),
        0x54 => Some(KeyCode::Numpad2),
        0x55 => Some(KeyCode::Numpad3),
        0x56 => Some(KeyCode::Numpad4),
        0x57 => Some(KeyCode::Numpad5),
        0x58 => Some(KeyCode::Numpad6),
        0x59 => Some(KeyCode::Numpad7),
        0x5B => Some(KeyCode::Numpad8),
        0x5C => Some(KeyCode::Numpad9),
        0x45 => Some(KeyCode::NumpadAdd),
        0x4E => Some(KeyCode::NumpadSub),
        0x43 => Some(KeyCode::NumpadMul),
        0x4B => Some(KeyCode::NumpadDiv),
        0x4C => Some(KeyCode::NumpadEnter),
        // Punctuation and symbols
        0x32 => Some(KeyCode::Backtick),
        0x1B => Some(KeyCode::Minus),
        0x18 => Some(KeyCode::Equal),
        0x21 => Some(KeyCode::LeftBracket),
        0x1E => Some(KeyCode::RightBracket),
        0x2A => Some(KeyCode::Backslash),
        0x29 => Some(KeyCode::Semicolon),
        0x27 => Some(KeyCode::Apostrophe),
        0x2B => Some(KeyCode::Comma),
        0x2F => Some(KeyCode::Period),
        0x2C => Some(KeyCode::Slash),
        _ => None,
    };
    proof {
        match key {
            Some(k) => {
                lemma_mac_key_is(vk, k);
            },
            None => {
                assert forall|k: KeyCode| !mac_names(vk, k) by {}
            },
        }
    }
    key
}

/// Converts a canonical key to the macOS virtual key code to inject.
///
/// `None` for `F21` to `F24` and for `PrintScreen`, `ScrollLock` and
/// `Pause`, which have no code of their own. A modifier is injected as its
/// left-hand key.
pub fn keycode_to_vkcode(key: KeyCode) -> (vk: Option<u16>)
    ensures
        vk == mac_vkcode(key),
{
    match key {
        // Letters
        KeyCode::A => Some(0x00),
        KeyCode::B => Some(0x0B),
        KeyCode::C => Some(0x08),
        KeyCode::D => Some(0x02),
        KeyCode::E => Some(0x0E),
        KeyCode::F => Some(0x03),
        KeyCode::G => Some(0x05),
        KeyCode::H => Some(0x04),
        KeyCode::I => Some(0x22),
        KeyCode::J => Some(0x26),
        KeyCode::K => Some(0x28),
        KeyCode::L => Some(0x25),
        KeyCode::M => Some(0x2E),
        KeyCode::N => Some(0x2D),
        KeyCode::O => Some(0x1F),
        KeyCode::P => Some(0x23),
        KeyCode::Q => Some(0x0C),
        KeyCode::R => Some(0x0F),
        KeyCode::S => Some(0x01),
        KeyCode::T => Some(0x11),
        KeyCode::U => Some(0x20),
        KeyCode::V => Some(0x09),
        KeyCode::W => Some(0x0D),
        KeyCode::X => Some(0x07),
        KeyCode::Y => Some(0x10),
        KeyCode::Z => Some(0x06),
        // Top-row digits
        KeyCode::Key1 => Some(0x12),
        KeyCode::Key2 => Some(0x13),
        KeyCode::Key3 => Some(0x14),
        KeyCode::Key4 => Some(0x15),
        KeyCode::Key5 => Some(0x17),
        KeyCode::Key6 => Some(0x16),
        KeyCode::Key7 => Some(0x1A),
        KeyCode::Key8 => Some(0x1C),
        KeyCode::Key9 => Some(0x19),
        KeyCode::Key0 => Some(0x1D),
        // Function keys
        KeyCode::F1 => Some(0x7A),
        KeyCode::F2 => Some(0x78),
        KeyCode::F3 => Some(0x63),
        KeyCode::F4 => Some(0x76),
        KeyCode::F5 => Some(0x60),
        KeyCode::F6 => Some(0x61),
        KeyCode::F7 => Some(0x62),
        KeyCode::F8 => Some(0x64),
        KeyCode::F9 => Some(0x65),
        KeyCode::F10 => Some(0x6D),
        KeyCode::F11 => Some(0x67),
        KeyCode::F12 => Some(0x6F),
        KeyCode::F13 => Some(0x69),
        KeyCode::F14 => Some(0x6B),
        KeyCode::F15 => Some(0x71),
        KeyCode::F16 => Some(0x6A),
        KeyCode::F17 => Some(0x40),
        KeyCode::F18 => Some(0x4F),
        KeyCode::F19 => Some(0x50),
        KeyCode::F20 => Some(0x5A),
        KeyCode::F21 => None,
        KeyCode::F22 => None,
        KeyCode::F23 => None,
        KeyCode::F24 => None,
        // Modifiers
        KeyCode::Ctrl => Some(0x3B),
        KeyCode::Shift => Some(0x38),
        KeyCode::Alt => Some(0x3A),
        KeyCode::Meta => Some(0x37),
        // Navigation and editing
        KeyCode::Space => Some(0x31),
        KeyCode::Enter => Some(0x24),
        KeyCode::Tab => Some(0x30),
        KeyCode::Escape => Some(0x35),
        KeyCode::Backspace => Some(0x33),
        KeyCode::Delete => Some(0x75),
        KeyCode::Insert => Some(0x72),
        KeyCode::Home => Some(0x73),
        KeyCode::End => Some(0x77),
        KeyCode::PageUp => Some(0x74),
        KeyCode::PageDown => Some(0x79),
        KeyCode::Up => Some(0x7E),
        KeyCode::Down => Some(0x7D),
        KeyCode::Left => Some(0x7B),
        KeyCode::Right => Some(0x7C),
        // Lock and system keys
        KeyCode::CapsLock => Some(0x39),
        KeyCode::NumLock => Some(0x47),
        KeyCode::ScrollLock => None,
        KeyCode::PrintScreen => None,
        KeyCode::Pause => None,
        // Numeric keypad
        KeyCode::Numpad0 => Some(0x52),
        KeyCode::Numpad1 => Some(0x53),
        KeyCode::Numpad2 => Some(0x54),
        KeyCode::Numpad3 => Some(0x55),
        KeyCode::Numpad4 => Some(0x56),
        KeyCode::Numpad5 => Some(0x57),
        KeyCode::Numpad6 => Some(0x58),
        KeyCode::Numpad7 => Some(0x59),
        KeyCode::Numpad8 => Some(0x5B),
        KeyCode::Numpad9 => Some(0x5C),
        KeyCode::NumpadAdd => Some(0x45),
        KeyCode::NumpadSub => Some(0x4E),
        KeyCode::NumpadMul => Some(0x43),
        KeyCode::NumpadDiv => Some(0x4B),
        KeyCode::NumpadEnter => Some(0x4C),
        // Punctuation and symbols
        KeyCode::Backtick => Some(0x32),
        KeyCode::Minus => Some(0x1B),
        KeyCode::Equal => Some(0x18),
        KeyCode::LeftBracket => Some(0x21),
        KeyCode::RightBracket => Some(0x1E),
        KeyCode::Backslash => Some(0x2A),
        KeyCode::Semicolon => Some(0x29),
        KeyCode::Apostrophe => Some(0x27),
        KeyCode::Comma => Some(0x2B),
        KeyCode::Period => Some(0x2F),
        KeyCode::Slash => Some(0x2C),
    }
}

/// Capture undoes injection: the native code that is injected for a
/// canonical key is captured as that key. This holds of every key that has a
/// code.
pub proof fn lemma_mac_round_trip(key: KeyCode)
    requires
        mac_vkcode(key) is Some,
    ensures
        mac_key(mac_vkcode(key)->0) == Some(key),
{
    lemma_mac_key_is(mac_vkcode(key)->0, key);
}

/// The left-hand and the right-hand instance of a modifier are captured as
/// the same canonical key.
pub proof fn lemma_mac_modifier_sides(key: KeyCode)
    requires
        key.is_modifier(),
    ensures
        mac_vkcode(key) matches Some(left) && mac_key(left) == Some(key),
        mac_right_vkcode(key) matches Some(right) && mac_key(right) == Some(key),
{
    lemma_mac_key_is(mac_vkcode(key)->0, key);
    lemma_mac_key_is(mac_right_vkcode(key)->0, key);
}

} // verus!
