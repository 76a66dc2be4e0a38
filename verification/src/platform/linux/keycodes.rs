//! Linux evdev key codes.
//!
//! The kernel's input event codes (`linux/input-event-codes.h`), which the
//! embedded-input protocol carries as `u32`, and the canonical [`KeyCode`].
//!
//! Injection is the defining table: [`evdev_code`] gives each canonical key
//! its one native code, the left-hand one for a modifier. Capture is its
//! inverse, widened by the right-hand modifier codes: [`evdev_key`].

use crate::platform::KeyCode;
use crate::platform::KeyState;
use reis::ei::keyboard::KeyState as EiKeyState;
use vstd::prelude::*;

verus! {

/// The native code that is injected for `key`.
pub open spec fn evdev_code(key: KeyCode) -> u32 {
    match key {
        // Letters
        KeyCode::A => 30u32,
        KeyCode::B => 48u32,
        KeyCode::C => 46u32,
        KeyCode::D => 32u32,
        KeyCode::E => 18u32,
        KeyCode::F => 33u32,
        KeyCode::G => 34u32,
        KeyCode::H => 35u32,
        KeyCode::I => 23u32,
        KeyCode::J => 36u32,
        KeyCode::K => 37u32,
        KeyCode::L => 38u32,
        KeyCode::M => 50u32,
        KeyCode::N => 49u32,
        KeyCode::O => 24u32,
        KeyCode::P => 25u32,
        KeyCode::Q => 16u32,
        KeyCode::R => 19u32,
        KeyCode::S => 31u32,
        KeyCode::T => 20u32,
        KeyCode::U => 22u32,
        KeyCode::V => 47u32,
        KeyCode::W => 17u32,
        KeyCode::X => 45u32,
        KeyCode::Y => 21u32,
        KeyCode::Z => 44u32,
        // Top-row digits
        KeyCode::Key1 => 2u32,
        KeyCode::Key2 => 3u32,
        KeyCode::Key3 => 4u32,
        KeyCode::Key4 => 5u32,
        KeyCode::Key5 => 6u32,
        KeyCode::Key6 => 7u32,
        KeyCode::Key7 => 8u32,
        KeyCode::Key8 => 9u32,
        KeyCode::Key9 => 10u32,
        KeyCode::Key0 => 11u32,
        // Function keys
        KeyCode::F1 => 59u32,
        KeyCode::F2 => 60u32,
        KeyCode::F3 => 61u32,
        KeyCode::F4 => 62u32,
        KeyCode::F5 => 63u32,
        KeyCode::F6 => 64u32,
        KeyCode::F7 => 65u32,
        KeyCode::F8 => 66u32,
        KeyCode::F9 => 67u32,
        KeyCode::F10 => 68u32,
        KeyCode::F11 => 87u32,
        KeyCode::F12 => 88u32,
        KeyCode::F13 => 183u32,
        KeyCode::F14 => 184u32,
        KeyCode::F15 => 185u32,
        KeyCode::F16 => 186u32,
        KeyCode::F17 => 187u32,
        KeyCode::F18 => 188u32,
        KeyCode::F19 => 189u32,
        KeyCode::F20 => 190u32,
        KeyCode::F21 => 191u32,
        KeyCode::F22 => 192u32,
        KeyCode::F23 => 193u32,
        KeyCode::F24 => 194u32,
        // Modifiers
        KeyCode::Ctrl => 29u32,
        KeyCode::Shift => 42u32,
        KeyCode::Alt => 56u32,
        KeyCode::Meta => 125u32,
        // Navigation and editing
        KeyCode::Space => 57u32,
        KeyCode::Enter => 28u32,
        KeyCode::Tab => 15u32,
        KeyCode::Escape => 1u32,
        KeyCode::Backspace => 14u32,
        KeyCode::Delete => 111u32,
        KeyCode::Insert => 110u32,
        KeyCode::Home => 102u32,
        KeyCode::End => 107u32,
        KeyCode::PageUp => 104u32,
        KeyCode::PageDown => 109u32,
        KeyCode::Up => 103u32,
        KeyCode::Down => 108u32,
        KeyCode::Left => 105u32,
        KeyCode::Right => 106u32,
        // Lock and system keys
        KeyCode::CapsLock => 58u32,
        KeyCode::NumLock => 69u32,
        KeyCode::ScrollLock => 70u32,
        KeyCode::PrintScreen => 99u32,
        KeyCode::Pause => 119u32,
        // Numeric keypad
        KeyCode::Numpad0 => 82u32,
        KeyCode::Numpad1 => 79u32,
        KeyCode::Numpad2 => 80u32,
        KeyCode::Numpad3 => 81u32,
        KeyCode::Numpad4 => 75u32,
        KeyCode::Numpad5 => 76u32,
        KeyCode::Numpad6 => 77u32,
        KeyCode::Numpad7 => 71u32,
        KeyCode::Numpad8 => 72u32,
        KeyCode::Numpad9 => 73u32,
        KeyCode::NumpadAdd => 78u32,
        KeyCode::NumpadSub => 74u32,
        KeyCode::NumpadMul => 55u32,
        KeyCode::NumpadDiv => 98u32,
        KeyCode::NumpadEnter => 96u32,
        // Punctuation and symbols
        KeyCode::Backtick => 41u32,
        KeyCode::Minus => 12u32,
        KeyCode::Equal => 13u32,
        KeyCode::LeftBracket => 26u32,
        KeyCode::RightBracket => 27u32,
        KeyCode::Backslash => 43u32,
        KeyCode::Semicolon => 39u32,
        KeyCode::Apostrophe => 40u32,
        KeyCode::Comma => 51u32,
        KeyCode::Period => 52u32,
        KeyCode::Slash => 53u32,
    }
}

/// The native code of the right-hand instance of a modifier.
pub open spec fn evdev_right_code(key: KeyCode) -> Option<u32> {
    match key {
        KeyCode::Ctrl => Some(97u32),
        KeyCode::Shift => Some(54u32),
        KeyCode::Alt => Some(100u32),
        KeyCode::Meta => Some(126u32),
        _ => None,
    }
}

/// Whether a physical key with native `code` has the canonical identity `key`.
pub open spec fn evdev_names(code: u32, key: KeyCode) -> bool {
    code == evdev_code(key) || evdev_right_code(key) == Some(code)
}

/// The canonical identity of native `code`, if it has one.
pub open spec fn evdev_key(code: u32) -> Option<KeyCode> {
    if exists|key: KeyCode| evdev_names(code, key) {
        Some(choose|key: KeyCode| evdev_names(code, key))
    } else {
        None
    }
}

/// A native code names at most one canonical key, so the key it names is its identity.
pub proof fn lemma_evdev_key_is(code: u32, key: KeyCode)
    requires
        evdev_names(code, key),
    ensures
        evdev_key(code) == Some(key),
{
    let chosen = choose|k: KeyCode| evdev_names(code, k);
    assert(evdev_names(code, chosen));
}

/// Converts a Linux evdev code to the canonical key.
///
/// `None` for codes without a canonical identity (media keys, hardware
/// specific keys): the caller drops such events.
pub fn evdev_to_keycode(code: u32) -> (key: Option<KeyCode>)
    ensures
        key == evdev_key(code),
        key matches Some(named) ==> evdev_names(code, named),
        key is None ==> forall|any: KeyCode| !evdev_names(code, any),
{
    let key = match code {
        // Letters
        30 => Some(KeyCode::A),
        48 => Some(KeyCode::B),
        46 => Some(KeyCode::C),
        32 => Some(KeyCode::D),
        18 => Some(KeyCode::E),
        33 => Some(KeyCode::F),
        34 => Some(KeyCode::G),
        35 => Some(KeyCode::H),
        23 => Some(KeyCode::I),
        36 => Some(KeyCode::J),
        37 => Some(KeyCode::K),
        38 => Some(KeyCode::L),
        50 => Some(KeyCode::M),
        49 => Some(KeyCode::N),
        24 => Some(KeyCode::O),
        25 => Some(KeyCode::P),
        16 => Some(KeyCode::Q),
        19 => Some(KeyCode::R),
        31 => Some(KeyCode::S),
        20 => Some(KeyCode::T),
        22 => Some(KeyCode::U),
        47 => Some(KeyCode::V),
        17 => Some(KeyCode::W),
        45 => Some(KeyCode::X),
        21 => Some(KeyCode::Y),
        44 => Some(KeyCode::Z),
        // Top-row digits
        2 => Some(KeyCode::Key1),
        3 => Some(KeyCode::Key2),
        4 => Some(KeyCode::Key3),
        5 => Some(KeyCode::Key4),
        6 => Some(KeyCode::Key5),
        7 => Some(KeyCode::Key6),
        8 => Some(KeyCode::Key7),
        9 => Some(KeyCode::Key8),
        10 => Some(KeyCode::Key9),
        11 => Some(KeyCode::Key0),
        // Function keys
        59 => Some(KeyCode::F1),
        60 => Some(KeyCode::F2),
        61 => Some(KeyCode::F3),
        62 => Some(KeyCode::F4),
        63 => Some(KeyCode::F5),
        64 => Some(KeyCode::F6),
        65 => Some(KeyCode::F7),
        66 => Some(KeyCode::F8),
        67 => Some(KeyCode::F9),
        68 => Some(KeyCode::F10),
        87 => Some(KeyCode::F11),
        88 => Some(KeyCode::F12),
        183 => Some(KeyCode::F13),
        184 => Some(KeyCode::F14),
        185 => Some(KeyCode::F15),
        186 => Some(KeyCode::F16),
        187 => Some(KeyCode::F17),
        188 => Some(KeyCode::F18),
        189 => Some(KeyCode::F19),
        190 => Some(KeyCode::F20),
        191 => Some(KeyCode::F21),
        192 => Some(KeyCode::F22),
        193 => Some(KeyCode::F23),
        194 => Some(KeyCode::F24),
        // Modifiers
        29 | 97 => Some(KeyCode::Ctrl),
        42 | 54 => Some(KeyCode::Shift),
        56 | 100 => Some(KeyCode::Alt),
        125 | 126 => Some(KeyCode::Meta),
        // Navigation and editing
        57 => Some(KeyCode::Space),
        28 => Some(KeyCode::Enter),
        15 => Some(KeyCode::Tab),
        1 => Some(KeyCode::Escape),
        14 => Some(KeyCode::Backspace),
        111 => Some(KeyCode::Delete),
        110 => Some(KeyCode::Insert),
        102 => Some(KeyCode::Home),
        107 => Some(KeyCode::End),
        104 => Some(KeyCode::PageUp),
        109 => Some(KeyCode::PageDown),
        103 => Some(KeyCode::Up),
        108 => Some(KeyCode::Down),
        105 => Some(KeyCode::Left),
        106 => Some(KeyCode::Right),
        // Lock and system keys
        58 => Some(KeyCode::CapsLock),
        69 => Some(KeyCode::NumLock),
        70 => Some(KeyCode::ScrollLock),
        99 => Some(KeyCode::PrintScreen),
        119 => Some(KeyCode::Pause),
        // Numeric keypad
        82 => Some(KeyCode::Numpad0),
        79 => Some(KeyCode::Numpad1),
        80 => Some(KeyCode::Numpad2),
        81 => Some(KeyCode::Numpad3),
        75 => Some(KeyCode::Numpad4),
        76 => Some(KeyCode::Numpad5),
        77 => Some(KeyCode::Numpad6),
        71 => Some(KeyCode::Numpad7),
        72 => Some(KeyCode::Numpad8),
        73 => Some(KeyCode::Numpad9),
        78 => Some(KeyCode::NumpadAdd),
        74 => Some(KeyCode::NumpadSub),
        55 => Some(KeyCode::NumpadMul),
        98 => Some(KeyCode::NumpadDiv),
        96 => Some(KeyCode::NumpadEnter),
        // Punctuation and symbols
        41 => Some(KeyCode::Backtick),
        12 => Some(KeyCode::Minus),
        13 => Some(KeyCode::Equal),
        26 => Some(KeyCode::LeftBracket),
        27 => Some(KeyCode::RightBracket),
        43 => Some(KeyCode::Backslash),
        39 => Some(KeyCode::Semicolon),
        40 => Some(KeyCode::Apostrophe),
        51 => Some(KeyCode::Comma),
        52 => Some(KeyCode::Period),
        53 => Some(KeyCode::Slash),
        _ => None,
    };
    proof {
        match key {
            Some(k) => {
                lemma_evdev_key_is(code, k);
            },
            None => {
                assert forall|k: KeyCode| !evdev_names(code, k) by {}
            },
        }
    }
    key
}

/// Converts a canonical key to the Linux evdev code to inject.
///
/// A modifier is injected as its left-hand key.
pub fn keycode_to_evdev(key: KeyCode) -> (code: u32)
    ensures
        code == evdev_code(key),
{
    match key {
        // Letters
        KeyCode::A => 30,
        KeyCode::B => 48,
        KeyCode::C => 46,
        KeyCode::D => 32,
        KeyCode::E => 18,
        KeyCode::F => 33,
        KeyCode::G => 34,
        KeyCode::H => 35,
        KeyCode::I => 23,
        KeyCode::J => 36,
        KeyCode::K => 37,
        KeyCode::L => 38,
        KeyCode::M => 50,
        KeyCode::N => 49,
        KeyCode::O => 24,
        KeyCode::P => 25,
        KeyCode::Q => 16,
        KeyCode::R => 19,
        KeyCode::S => 31,
        KeyCode::T => 20,
        KeyCode::U => 22,
        KeyCode::V => 47,
        KeyCode::W => 17,
        KeyCode::X => 45,
        KeyCode::Y => 21,
        KeyCode::Z => 44,
        // Top-row digits
        KeyCode::Key1 => 2,
        KeyCode::Key2 => 3,
        KeyCode::Key3 => 4,
        KeyCode::Key4 => 5,
        KeyCode::Key5 => 6,
        KeyCode::Key6 => 7,
        KeyCode::Key7 => 8,
        KeyCode::Key8 => 9,
        KeyCode::Key9 => 10,
        KeyCode::Key0 => 11,
        // Function keys
        KeyCode::F1 => 59,
        KeyCode::F2 => 60,
        KeyCode::F3 => 61,
        KeyCode::F4 => 62,
        KeyCode::F5 => 63,
        KeyCode::F6 => 64,
        KeyCode::F7 => 65,
        KeyCode::F8 => 66,
        KeyCode::F9 => 67,
        KeyCode::F10 => 68,
        KeyCode::F11 => 87,
        KeyCode::F12 => 88,
        KeyCode::F13 => 183,
        KeyCode::F14 => 184,
        KeyCode::F15 => 185,
        KeyCode::F16 => 186,
        KeyCode::F17 => 187,
        KeyCode::F18 => 188,
        KeyCode::F19 => 189,
        KeyCode::F20 => 190,
        KeyCode::F21 => 191,
        KeyCode::F22 => 192,
        KeyCode::F23 => 193,
        KeyCode::F24 => 194,
        // Modifiers
        KeyCode::Ctrl => 29,
        KeyCode::Shift => 42,
        KeyCode::Alt => 56,
        KeyCode::Meta => 125,
        // Navigation and editing
        KeyCode::Space => 57,
        KeyCode::Enter => 28,
        KeyCode::Tab => 15,
        KeyCode::Escape => 1,
        KeyCode::Backspace => 14,
        KeyCode::Delete => 111,
        KeyCode::Insert => 110,
        KeyCode::Home => 102,
        KeyCode::End => 107,
        KeyCode::PageUp => 104,
        KeyCode::PageDown => 109,
        KeyCode::Up => 103,
        KeyCode::Down => 108,
        KeyCode::Left => 105,
        KeyCode::Right => 106,
        // Lock and system keys
        KeyCode::CapsLock => 58,
        KeyCode::NumLock => 69,
        KeyCode::ScrollLock => 70,
        KeyCode::PrintScreen => 99,
        KeyCode::Pause => 119,
        // Numeric keypad
        KeyCode::Numpad0 => 82,
        KeyCode::Numpad1 => 79,
        KeyCode::Numpad2 => 80,
        KeyCode::Numpad3 => 81,
        KeyCode::Numpad4 => 75,
        KeyCode::Numpad5 => 76,
        KeyCode::Numpad6 => 77,
        KeyCode::Numpad7 => 71,
        KeyCode::Numpad8 => 72,
        KeyCode::Numpad9 => 73,
        KeyCode::NumpadAdd => 78,
        KeyCode::NumpadSub => 74,
        KeyCode::NumpadMul => 55,
        KeyCode::NumpadDiv => 98,
        KeyCode::NumpadEnter => 96,
        // Punctuation and symbols
        KeyCode::Backtick => 41,
        KeyCode::Minus => 12,
        KeyCode::Equal => 13,
        KeyCode::LeftBracket => 26,
        KeyCode::RightBracket => 27,
        KeyCode::Backslash => 43,
        KeyCode::Semicolon => 39,
        KeyCode::Apostrophe => 40,
        KeyCode::Comma => 51,
        KeyCode::Period => 52,
        KeyCode::Slash => 53,
    }
}

/// The key state of the embedded-input protocol, `reis::ei::keyboard::KeyState`.
#[verifier::external_type_specification]
#[verifier::external_body]
pub struct ExEiKeyState(EiKeyState);

/// Converts a key state of the embedded-input protocol to the canonical one.
///
/// Tells the two variants of `reis::ei::keyboard::KeyState` apart: `Press`
/// is `Down`, `Released` is `Up`. The protocol's type is opaque to the
/// verifier, so nothing is proved of this.
#[verifier::external_body]
pub fn key_state_from_reis(state: EiKeyState) -> KeyState {
    match state {
        EiKeyState::Press => KeyState::Down,
        EiKeyState::Released => KeyState::Up,
    }
}

/// Capture undoes injection: the native code that is injected for a
/// canonical key is captured as that key. This holds of every key.
pub proof fn lemma_evdev_round_trip(key: KeyCode)
    ensures
        evdev_key(evdev_code(key)) == Some(key),
{
    lemma_evdev_key_is(evdev_code(key), key);
}

/// The left-hand and the right-hand instance of a modifier are captured as
/// the same canonical key.
pub proof fn lemma_evdev_modifier_sides(key: KeyCode)
    requires
        key.is_modifier(),
    ensures
        evdev_key(evdev_code(key)) == Some(key),
        evdev_right_code(key) matches Some(right) && evdev_key(right) == Some(key),
{
    lemma_evdev_key_is(evdev_code(key), key);
    lemma_evdev_key_is(evdev_right_code(key)->0, key);
}

} // verus!
