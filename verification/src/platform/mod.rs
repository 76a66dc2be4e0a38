//! Platform abstraction layer.
//!
//! The canonical event model shared by every backend, and the two capability
//! contracts, [`InputCapture`] and [`ActionExecutor`], that a backend fulfils.
//! The per-OS tables and backend cores live in the child modules.

use vstd::prelude::*;

pub mod linux;
pub mod macos;
pub mod windows;

verus! {

/// Canonical identity of a physical key.
///
/// Every backend normalises its native codes to this enumeration. The left and
/// right instances of a modifier share one identity: `Ctrl`, `Shift`, `Alt`,
/// `Meta`.
#[derive(Debug, Clone, Copy, PartialEq, Eq, Hash, Structural)]
pub enum KeyCode {
    // Letters
    A,
    B,
    C,
    D,
    E,
    F,
    G,
    H,
    I,
    J,
    K,
    L,
    M,
    N,
    O,
    P,
    Q,
    R,
    S,
    T,
    U,
    V,
    W,
    X,
    Y,
    Z,
    // Top-row digits
    Key0,
    Key1,
    Key2,
    Key3,
    Key4,
    Key5,
    Key6,
    Key7,
    Key8,
    Key9,
    // Function keys
    F1,
    F2,
    F3,
    F4,
    F5,
    F6,
    F7,
    F8,
    F9,
    F10,
    F11,
    F12,
    F13,
    F14,
    F15,
    F16,
    F17,
    F18,
    F19,
    F20,
    F21,
    F22,
    F23,
    F24,
    // Modifiers, one identity for both sides
    Ctrl,
    Shift,
    Alt,
    Meta,
    // Navigation and editing
    Space,
    Enter,
    Tab,
    Escape,
    Backspace,
    Delete,
    Insert,
    Home,
    End,
    PageUp,
    PageDown,
    Up,
    Down,
    Left,
    Right,
    // Lock and system keys
    CapsLock,
    NumLock,
    ScrollLock,
    PrintScreen,
    Pause,
    // Numeric keypad
    Numpad0,
    Numpad1,
    Numpad2,
    Numpad3,
    Numpad4,
    Numpad5,
    Numpad6,
    Numpad7,
    Numpad8,
    Numpad9,
    NumpadAdd,
    NumpadSub,
    NumpadMul,
    NumpadDiv,
    NumpadEnter,
    // Punctuation and symbols
    Backtick,
    Minus,
    Equal,
    LeftBracket,
    RightBracket,
    Backslash,
    Semicolon,
    Apostrophe,
    Comma,
    Period,
    Slash,
}

impl KeyCode {
    /// Whether the key is one of the four unified modifiers.
    pub open spec fn is_modifier(self) -> bool {
        self == KeyCode::Ctrl || self == KeyCode::Shift || self == KeyCode::Alt || self
            == KeyCode::Meta
    }

    /// Whether the key is one of the letters `A` to `Z`.
    pub open spec fn spec_is_letter(self) -> bool {
        match self {
            KeyCode::A | KeyCode::B | KeyCode::C | KeyCode::D | KeyCode::E | KeyCode::F
            | KeyCode::G | KeyCode::H | KeyCode::I | KeyCode::J | KeyCode::K | KeyCode::L
            | KeyCode::M | KeyCode::N | KeyCode::O | KeyCode::P | KeyCode::Q | KeyCode::R
            | KeyCode::S | KeyCode::T | KeyCode::U | KeyCode::V | KeyCode::W | KeyCode::X
            | KeyCode::Y | KeyCode::Z => true,
            _ => false,
        }
    }

    /// Whether the key is one of the letters `A` to `Z`.
    #[verifier::when_used_as_spec(spec_is_letter)]
    pub fn is_letter(self) -> (letter: bool)
        ensures
            letter == self.spec_is_letter(),
    {
        match self {
            KeyCode::A | KeyCode::B | KeyCode::C | KeyCode::D | KeyCode::E | KeyCode::F
            | KeyCode::G | KeyCode::H | KeyCode::I | KeyCode::J | KeyCode::K | KeyCode::L
            | KeyCode::M | KeyCode::N | KeyCode::O | KeyCode::P | KeyCode::Q | KeyCode::R
            | KeyCode::S | KeyCode::T | KeyCode::U | KeyCode::V | KeyCode::W | KeyCode::X
            | KeyCode::Y | KeyCode::Z => true,
            _ => false,
        }
    }
}

/// Whether a key was pressed or released.
#[derive(Debug, Clone, Copy, PartialEq, Eq, Hash, Structural)]
pub enum KeyState {
    Down,
    Up,
}

/// Modifier flags that were active when an event was captured.
#[derive(Debug, Clone, Copy, PartialEq, Eq, Hash, Structural)]
pub struct Modifiers {
    pub ctrl: bool,
    pub shift: bool,
    pub alt: bool,
    pub meta: bool,
}

impl Modifiers {
    /// No modifier is active.
    pub open spec fn none() -> Modifiers {
        Modifiers { ctrl: false, shift: false, alt: false, meta: false }
    }
}

impl Default for Modifiers {
    fn default() -> (m: Modifiers)
        ensures
            m == Modifiers::none(),
    {
        Modifiers { ctrl: false, shift: false, alt: false, meta: false }
    }
}

/// Metadata about the window that had focus when an event was captured.
#[derive(Debug, Clone, PartialEq, Eq)]
pub struct WindowContext {
    pub app_id: Option<String>,
    pub title: Option<String>,
}

/// The text of an optional string.
pub open spec fn text_of(s: Option<String>) -> Option<Seq<char>> {
    match s {
        Some(text) => Some(text@),
        None => None,
    }
}

/// A window context as the texts it holds.
pub struct WindowContextView {
    pub app_id: Option<Seq<char>>,
    pub title: Option<Seq<char>>,
}

impl View for WindowContext {
    type V = WindowContextView;

    open spec fn view(&self) -> WindowContextView {
        WindowContextView { app_id: text_of(self.app_id), title: text_of(self.title) }
    }
}

impl WindowContext {
    /// Nothing is known about the focused window.
    pub open spec fn unknown() -> WindowContext {
        WindowContext { app_id: None, title: None }
    }
}

impl Default for WindowContext {
    fn default() -> (w: WindowContext)
        ensures
            w == WindowContext::unknown(),
    {
        WindowContext { app_id: None, title: None }
    }
}

/// One key transition as delivered to the decision callback.
#[derive(Debug, Clone, PartialEq, Eq)]
pub struct InputEvent {
    pub key: KeyCode,
    pub state: KeyState,
    pub modifiers: Modifiers,
    pub window: WindowContext,
}

/// An input event with its window context as texts.
pub struct InputEventView {
    pub key: KeyCode,
    pub state: KeyState,
    pub modifiers: Modifiers,
    pub window: WindowContextView,
}

impl View for InputEvent {
    type V = InputEventView;

    open spec fn view(&self) -> InputEventView {
        InputEventView {
            key: self.key,
            state: self.state,
            modifiers: self.modifiers,
            window: self.window@,
        }
    }
}

impl InputEvent {
    /// The event that a backend produces for a transition of `key`: no
    /// modifier is recorded and nothing is known about the window.
    pub open spec fn spec_bare(key: KeyCode, state: KeyState) -> InputEvent {
        InputEvent { key, state, modifiers: Modifiers::none(), window: WindowContext::unknown() }
    }

    /// Builds the event that a backend produces for a transition of `key`.
    #[verifier::when_used_as_spec(spec_bare)]
    pub fn bare(key: KeyCode, state: KeyState) -> (event: InputEvent)
        ensures
            event == InputEvent::spec_bare(key, state),
    {
        InputEvent { key, state, modifiers: Modifiers::default(), window: WindowContext::default() }
    }
}

/// What the decision layer asks a backend to do.
#[derive(Debug, Clone, PartialEq, Eq)]
pub enum Action {
    /// Remap one key to another.
    Remap { from: KeyCode, to: KeyCode },
    /// Run a shell command.
    Exec { command: String },
    /// Type a string through synthetic key events.
    TypeString { text: String },
    /// Let the original event through unmodified.
    Passthrough,
    /// Swallow the original event.
    Suppress,
    /// Inject one key transition. The only variant that is ready for the OS.
    InjectKey { key: KeyCode, state: KeyState },
}

/// An action with its strings as texts.
pub enum ActionView {
    Remap { from: KeyCode, to: KeyCode },
    Exec { command: Seq<char> },
    TypeString { text: Seq<char> },
    Passthrough,
    Suppress,
    InjectKey { key: KeyCode, state: KeyState },
}

impl View for Action {
    type V = ActionView;

    open spec fn view(&self) -> ActionView {
        match *self {
            Action::Remap { from, to } => ActionView::Remap { from, to },
            Action::Exec { command } => ActionView::Exec { command: command@ },
            Action::TypeString { text } => ActionView::TypeString { text: text@ },
            Action::Passthrough => ActionView::Passthrough,
            Action::Suppress => ActionView::Suppress,
            Action::InjectKey { key, state } => ActionView::InjectKey { key, state },
        }
    }
}

impl Action {
    /// The transition that the action asks to inject. Only `InjectKey` asks
    /// for one: every other variant is a decision that was not lowered yet.
    pub open spec fn spec_injection(&self) -> Option<(KeyCode, KeyState)> {
        match *self {
            Action::InjectKey { key, state } => Some((key, state)),
            _ => None,
        }
    }

    /// The transition that the action asks to inject, if it asks for one.
    #[verifier::when_used_as_spec(spec_injection)]
    pub fn injection(&self) -> (transition: Option<(KeyCode, KeyState)>)
        ensures
            transition == self.spec_injection(),
    {
        match self {
            Action::InjectKey { key, state } => Some((*key, *state)),
            _ => None,
        }
    }
}

/// Errors returned by platform operations.
#[derive(Debug, Clone, PartialEq, Eq)]
pub enum PlatformError {
    /// An authorisation is missing; the message names the remedy.
    PermissionDenied(String),
    /// A precondition of the environment does not hold.
    Unavailable(String),
    /// Any other OS or protocol failure.
    Other(String),
}

/// A platform error with its message as text.
pub enum PlatformErrorView {
    PermissionDenied(Seq<char>),
    Unavailable(Seq<char>),
    Other(Seq<char>),
}

impl PlatformErrorView {
    /// The line shown to the user: the kind's prefix, then the message.
    pub open spec fn display(self) -> Seq<char> {
        match self {
            PlatformErrorView::PermissionDenied(message) => "permission denied: "@ + message,
            PlatformErrorView::Unavailable(message) => "unavailable: "@ + message,
            PlatformErrorView::Other(message) => message,
        }
    }
}

impl View for PlatformError {
    type V = PlatformErrorView;

    open spec fn view(&self) -> PlatformErrorView {
        match *self {
            PlatformError::PermissionDenied(message) => PlatformErrorView::PermissionDenied(
                message@,
            ),
            PlatformError::Unavailable(message) => PlatformErrorView::Unavailable(message@),
            PlatformError::Other(message) => PlatformErrorView::Other(message@),
        }
    }
}

impl PlatformError {
    /// An authorisation is missing; `message` names the remedy.
    pub fn permission_denied(message: &str) -> (e: PlatformError)
        ensures
            e@ == PlatformErrorView::PermissionDenied(message@),
    {
        PlatformError::PermissionDenied(message.to_owned())
    }

    /// A precondition of the environment does not hold.
    pub fn unavailable(message: &str) -> (e: PlatformError)
        ensures
            e@ == PlatformErrorView::Unavailable(message@),
    {
        PlatformError::Unavailable(message.to_owned())
    }

    /// Any other OS or protocol failure.
    pub fn other(message: &str) -> (e: PlatformError)
        ensures
            e@ == PlatformErrorView::Other(message@),
    {
        PlatformError::Other(message.to_owned())
    }

    /// The line shown to the user: `permission denied: ` or `unavailable: `
    /// before the message of the first two kinds, the bare message of the third.
    pub fn to_string(&self) -> (line: String)
        ensures
            line@ == self@.display(),
    {
        match self {
            PlatformError::PermissionDenied(message) => {
                String::from_str("permission denied: ").concat(message.as_str())
            },
            PlatformError::Unavailable(message) => {
                String::from_str("unavailable: ").concat(message.as_str())
            },
            PlatformError::Other(message) => message.clone(),
        }
    }
}

/// A result with its error taken as text.
pub open spec fn viewed<T>(outcome: Result<T, PlatformError>) -> Result<T, PlatformErrorView> {
    match outcome {
        Ok(value) => Ok(value),
        Err(e) => Err(e@),
    }
}

/// Whether `outcome` is the outcome of a check: success exactly if the check
/// `passed`, and on failure the error `on_failure`.
pub open spec fn checked<T>(
    outcome: Result<T, PlatformError>,
    passed: bool,
    on_failure: PlatformErrorView,
) -> bool {
    match outcome {
        Ok(_) => passed,
        Err(e) => !passed && e@ == on_failure,
    }
}

/// The error of a start on an instance that is not idle.
pub open spec fn already_running_message() -> Seq<char> {
    "capture is already running"@
}

/// Where a backend instance stands in its life: constructed idle, running
/// between a successful start and the next stop, then idle again.
#[derive(Debug, Clone, Copy, PartialEq, Eq, Structural)]
pub enum Lifecycle {
    /// No worker exists and no native resource is held.
    Idle,
    /// One worker is live and owns the instance's native resources.
    Running,
}

/// A decision callback: takes each captured event, on the backend's worker thread.
pub trait EventCallback: Send {
    /// Takes one captured event.
    fn deliver(&self, event: InputEvent);
}

/// Captures key transitions and delivers them to a callback.
pub trait InputCapture: Send {
    /// Begins capturing; `callback` is invoked once per key transition.
    fn start(&mut self, callback: Box<dyn EventCallback>) -> Result<(), PlatformError>;

    /// Stops capturing.
    fn stop(&mut self) -> Result<(), PlatformError>;
}

/// Realises actions as OS-visible events.
pub trait ActionExecutor: Send {
    /// Executes `action`. Every variant is accepted; only `InjectKey` can fail.
    fn execute(&self, action: &Action) -> (done: Result<(), PlatformError>)
        ensures
            action.injection() is None ==> done is Ok,
    ;
}

} // verus!
