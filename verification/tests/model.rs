use pcunifier::platform::Action;
use pcunifier::platform::InputEvent;
use pcunifier::platform::KeyCode;
use pcunifier::platform::KeyState;
use pcunifier::platform::Modifiers;
use pcunifier::platform::PlatformError;
use pcunifier::platform::WindowContext;

#[test]
fn key_code_variants_construct() {
    let _letter = KeyCode::A;
    let _digit = KeyCode::Key0;
    let _fkey = KeyCode::F24;
    let _modifier = KeyCode::Meta;
    let _nav = KeyCode::PageDown;
    let _numpad = KeyCode::NumpadEnter;
    let _punct = KeyCode::Backtick;
}

#[test]
fn key_state_variants_are_distinct() {
    assert_ne!(KeyState::Down, KeyState::Up);
}

#[test]
fn default_modifiers_all_false() {
    let m = Modifiers::default();
    assert!(!m.ctrl);
    assert!(!m.shift);
    assert!(!m.alt);
    assert!(!m.meta);
}

#[test]
fn modifiers_field_access() {
    let m = Modifiers { ctrl: true, shift: false, alt: true, meta: false };
    assert!(m.ctrl);
    assert!(!m.shift);
    assert!(m.alt);
    assert!(!m.meta);
}

#[test]
fn default_window_context_all_none() {
    let wc = WindowContext::default();
    assert!(wc.app_id.is_none());
    assert!(wc.title.is_none());
}

#[test]
fn window_context_field_access() {
    let wc = WindowContext { app_id: Some("firefox".into()), title: Some("Example Page".into()) };
    assert_eq!(wc.app_id.as_deref(), Some("firefox"));
    assert_eq!(wc.title.as_deref(), Some("Example Page"));
}

#[test]
fn input_event_construction() {
    let event = InputEvent {
        key: KeyCode::A,
        state: KeyState::Down,
        modifiers: Modifiers { ctrl: true, ..Modifiers::default() },
        window: WindowContext::default(),
    };
    assert_eq!(event.key, KeyCode::A);
    assert_eq!(event.state, KeyState::Down);
    assert!(event.modifiers.ctrl);
    assert!(event.window.app_id.is_none());
}

#[test]
fn action_variants_construct() {
    let _remap = Action::Remap { from: KeyCode::A, to: KeyCode::B };
    let _exec = Action::Exec { command: "echo hello".into() };
    let _type_str = Action::TypeString { text: "hello".into() };
    let _pass = Action::Passthrough;
    let _suppress = Action::Suppress;
    let _inject = Action::InjectKey { key: KeyCode::A, state: KeyState::Down };
}

#[test]
fn inject_key_equality() {
    let a = Action::InjectKey { key: KeyCode::Enter, state: KeyState::Up };
    let b = Action::InjectKey { key: KeyCode::Enter, state: KeyState::Up };
    let c = Action::InjectKey { key: KeyCode::Enter, state: KeyState::Down };
    assert_eq!(a, b);
    assert_ne!(a, c);
}

#[test]
fn platform_error_display() {
    let e = PlatformError::PermissionDenied("accessibility not granted".into());
    assert_eq!(e.to_string(), "permission denied: accessibility not granted");

    let e = PlatformError::Unavailable("no compositor".into());
    assert_eq!(e.to_string(), "unavailable: no compositor");

    let e = PlatformError::Other("something went wrong".into());
    assert_eq!(e.to_string(), "something went wrong");
}

#[test]
fn platform_error_is_std_error() {
    let e = PlatformError::Other("test".into());
    let _ = e.to_string();
}

#[test]
fn platform_error_constructors_keep_the_message() {
    assert_eq!(
        PlatformError::permission_denied("no access"),
        PlatformError::PermissionDenied("no access".into())
    );
    assert_eq!(PlatformError::unavailable("gone"), PlatformError::Unavailable("gone".into()));
    assert_eq!(PlatformError::other("odd"), PlatformError::Other("odd".into()));
}

#[test]
fn platform_error_display_of_empty_message() {
    assert_eq!(PlatformError::PermissionDenied(String::new()).to_string(), "permission denied: ");
    assert_eq!(PlatformError::Unavailable(String::new()).to_string(), "unavailable: ");
    assert_eq!(PlatformError::Other(String::new()).to_string(), "");
}

#[test]
fn bare_event_has_no_modifiers_and_no_window() {
    let event = InputEvent::bare(KeyCode::Tab, KeyState::Up);
    assert_eq!(
        event,
        InputEvent {
            key: KeyCode::Tab,
            state: KeyState::Up,
            modifiers: Modifiers { ctrl: false, shift: false, alt: false, meta: false },
            window: WindowContext { app_id: None, title: None },
        }
    );
}

#[test]
fn only_inject_key_asks_for_an_injection() {
    assert_eq!(
        Action::InjectKey { key: KeyCode::F5, state: KeyState::Up }.injection(),
        Some((KeyCode::F5, KeyState::Up))
    );
    assert_eq!(Action::Remap { from: KeyCode::A, to: KeyCode::B }.injection(), None);
    assert_eq!(Action::Exec { command: "ls".into() }.injection(), None);
    assert_eq!(Action::TypeString { text: "hi".into() }.injection(), None);
    assert_eq!(Action::Passthrough.injection(), None);
    assert_eq!(Action::Suppress.injection(), None);
}

#[test]
fn letters_are_exactly_a_to_z() {
    assert!(KeyCode::A.is_letter());
    assert!(KeyCode::M.is_letter());
    assert!(KeyCode::Z.is_letter());
    assert!(!KeyCode::Key0.is_letter());
    assert!(!KeyCode::F1.is_letter());
    assert!(!KeyCode::Shift.is_letter());
    assert!(!KeyCode::Space.is_letter());
    assert!(!KeyCode::Numpad5.is_letter());
    assert!(!KeyCode::Slash.is_letter());
}
