//! Keyboard capture through an event tap.
//!
//! [`MacOSCapture`] decides what the backend does: whether a start may go
//! on after each of its checks, what the tap does with an event, what a stop
//! has to undo. Creating the tap and driving the run loop is the caller's
//! part, which needs the Accessibility permission.
//!
//! An extended keyboard sends the codes of `F13`, `F14` and `F15` for
//! `PrintScreen`, `ScrollLock` and `Pause`: the tap yields the function keys.

use crate::platform::macos::keycodes::mac_key;
use crate::platform::macos::keycodes::vkcode_to_keycode;
use crate::platform::already_running_message;
use crate::platform::checked;
use crate::platform::viewed;
use crate::platform::InputEvent;
use crate::platform::KeyState;
use crate::platform::Lifecycle;
use crate::platform::PlatformError;
use crate::platform::PlatformErrorView;
use vstd::prelude::*;

verus! {

/// `CGEventType` of a key going down.
pub const CG_EVENT_KEY_DOWN: u32 = 10;

/// `CGEventType` of a key going up.
pub const CG_EVENT_KEY_UP: u32 = 11;

/// The events the tap asks for: bit [`CG_EVENT_KEY_DOWN`] and bit
/// [`CG_EVENT_KEY_UP`]. Modifier changes are not asked for.
pub const EVENT_MASK: u64 = 0x0C00;

/// `kCGKeyboardEventKeycode`: the event field that holds the virtual key code.
pub const CG_KEYBOARD_EVENT_KEYCODE: u32 = 9;

/// `kCGKeyboardEventAutorepeat`: the event field that is non-zero when the
/// event is the repeat of a key that is held.
pub const CG_KEYBOARD_EVENT_AUTOREPEAT: u32 = 8;

/// `kCGHIDEventTap`: the tap sits where events enter the window server.
pub const CG_HID_EVENT_TAP: u32 = 0;

/// `kCGHeadInsertEventTap`: the tap goes before any other tap.
pub const CG_HEAD_INSERT_EVENT_TAP: u32 = 0;

/// `kCGEventTapOptionDefault`: an active tap, which may suppress events.
pub const CG_EVENT_TAP_OPTION_DEFAULT: u32 = 0;

/// The error of a start without the Accessibility permission.
pub open spec fn permission_required_message() -> Seq<char> {
    "Accessibility permission required. Grant it in System Settings > Privacy & Security > Accessibility."@
}

/// The error of a start whose tap could not be created.
pub open spec fn tap_refused_message() -> Seq<char> {
    "CGEventTapCreate returned null. Verify Accessibility permission is active."@
}

/// The error of a start whose worker died before its run loop was up.
pub open spec fn worker_lost_message() -> Seq<char> {
    "background thread exited before run loop was ready"@
}

/// A start that was admitted: the permission is to be checked next.
pub struct PermissionGate {
    sealed: (),
}

/// A start that has the permission: the tap is to be created next, on the
/// caller's thread.
pub struct TapGate {
    sealed: (),
}

/// A start that has its tap: the worker is to be launched next, and the
/// start waits until the worker's run loop is up.
pub struct WorkerGate {
    sealed: (),
}

impl PermissionGate {
    /// Takes the answer of the permission check. Without the permission the
    /// start ends here, before any tap is created: `PermissionDenied`, with
    /// the remedy in the message.
    pub fn resolve(self, trusted: bool) -> (next: Result<TapGate, PlatformError>)
        ensures
            checked(
                next,
                trusted,
                PlatformErrorView::PermissionDenied(permission_required_message()),
            ),
    {
        if trusted {
            Ok(TapGate { sealed: () })
        } else {
            Err(
                PlatformError::permission_denied(
                    "Accessibility permission required. Grant it in System Settings > Privacy & Security > Accessibility.",
                ),
            )
        }
    }
}

impl TapGate {
    /// Takes the outcome of the tap's creation. Without a tap the start ends
    /// here, before any worker exists: `PermissionDenied`.
    pub fn resolve(self, created: bool) -> (next: Result<WorkerGate, PlatformError>)
        ensures
            checked(next, created, PlatformErrorView::PermissionDenied(tap_refused_message())),
    {
        if created {
            Ok(WorkerGate { sealed: () })
        } else {
            Err(
                PlatformError::permission_denied(
                    "CGEventTapCreate returned null. Verify Accessibility permission is active.",
                ),
            )
        }
    }
}

impl WorkerGate {
    /// Takes the worker's report and ends the start.
    ///
    /// A start ends in success on an idle capture only. If the run loop is
    /// up, `capture` is running. If the worker died first, `capture` stays
    /// as it was and the start fails with `Other`. If `capture` is not idle
    /// any more the start fails with `Other` and leaves it alone. A start
    /// that fails says what is left to undo of it.
    pub fn resolve(self, capture: &mut MacOSCapture, ready: bool) -> (end: StartEnd)
        ensures
            (final(capture)@, viewed(end.result), end.undo) == start_end(old(capture)@, ready),
    {
        match capture.state {
            Lifecycle::Running => StartEnd {
                result: Err(PlatformError::other("capture is already running")),
                undo: Teardown { stop_run_loop: ready, join_worker: true },
            },
            Lifecycle::Idle => {
                if ready {
                    capture.state = Lifecycle::Running;
                    StartEnd {
                        result: Ok(()),
                        undo: Teardown { stop_run_loop: false, join_worker: false },
                    }
                } else {
                    StartEnd {
                        result: Err(
                            PlatformError::other(
                                "background thread exited before run loop was ready",
                            ),
                        ),
                        undo: Teardown { stop_run_loop: false, join_worker: true },
                    }
                }
            },
        }
    }
}

/// What a stop leaves to the caller.
#[derive(Debug, Clone, Copy, PartialEq, Eq, Structural)]
pub struct Teardown {
    /// Stop the worker's run loop. The worker then disables and releases the tap.
    pub stop_run_loop: bool,
    /// Join the worker before reporting success.
    pub join_worker: bool,
}

impl Teardown {
    /// Nothing was running: no OS call is due.
    pub open spec fn nothing() -> Teardown {
        Teardown { stop_run_loop: false, join_worker: false }
    }
}

/// How a start ended.
pub struct StartEnd {
    /// What the start returns.
    pub result: Result<(), PlatformError>,
    /// What is left to undo of a start that failed: the worker it launched.
    pub undo: Teardown,
}

/// How a start ends for a capture in `before`, on the worker's report that
/// its run loop is up (`ready`) or that it died first: the capture
/// afterwards, what the start returns, and what is left to undo.
///
/// Only an idle capture starts. On a capture that is not idle any more the
/// start fails and the worker is stopped again; on a dead worker it fails
/// and the worker is joined.
pub open spec fn start_end(before: Lifecycle, ready: bool) -> (
    Lifecycle,
    Result<(), PlatformErrorView>,
    Teardown,
) {
    if before != Lifecycle::Idle {
        (
            before,
            Err(PlatformErrorView::Other(already_running_message())),
            Teardown { stop_run_loop: ready, join_worker: true },
        )
    } else if ready {
        (Lifecycle::Running, Ok(()), Teardown::nothing())
    } else {
        (
            before,
            Err(PlatformErrorView::Other(worker_lost_message())),
            Teardown { stop_run_loop: false, join_worker: true },
        )
    }
}

/// What a stop makes of a capture in `state`: the capture is idle
/// afterwards, and the run loop is stopped and the worker joined exactly if
/// there was one.
pub open spec fn stopped(state: Lifecycle) -> (Lifecycle, Teardown) {
    let was_running = state == Lifecycle::Running;
    (Lifecycle::Idle, Teardown { stop_run_loop: was_running, join_worker: was_running })
}

/// One step of the worker's teardown after its run loop has returned.
#[derive(Debug, Clone, Copy, PartialEq, Eq, Structural)]
pub enum TeardownStep {
    /// Disable the tap, so that the callback is not invoked any more.
    DisableTap,
    /// Release the tap.
    ReleaseTap,
    /// Release the state that the callback reads.
    ReleaseCallbackState,
}

/// The order of the worker's teardown. It is strict: the callback's state
/// goes last, when nothing can invoke the callback any more.
pub open spec fn teardown_order() -> Seq<TeardownStep> {
    seq![TeardownStep::DisableTap, TeardownStep::ReleaseTap, TeardownStep::ReleaseCallbackState]
}

/// What the tap does with an event.
#[derive(Debug, Clone, PartialEq, Eq)]
pub enum TapVerdict {
    /// Return the event unmodified: it reaches its other consumers.
    PassThrough,
    /// Hand the canonical event to the callback, then return null: the
    /// original reaches no other consumer.
    ForwardAndSuppress(InputEvent),
    /// Return null and hand nothing to the callback: the event is the repeat
    /// of a key that is held, and reaches nobody.
    Suppress,
}

/// The state that an event type stands for, if it is a key event.
pub open spec fn key_state_of(event_type: u32) -> Option<KeyState> {
    if event_type == CG_EVENT_KEY_DOWN {
        Some(KeyState::Down)
    } else if event_type == CG_EVENT_KEY_UP {
        Some(KeyState::Up)
    } else {
        None
    }
}

/// What the tap does with an event of `event_type` whose key code field
/// holds `vkcode` and whose auto-repeat field holds `autorepeat`.
///
/// A transition of a key with a canonical identity is forwarded and
/// suppressed. The repeat of such a key, while it is held, is suppressed and
/// yields no event. Anything else passes through.
pub open spec fn tap_verdict(event_type: u32, vkcode: u16, autorepeat: i64) -> TapVerdict {
    match (key_state_of(event_type), mac_key(vkcode)) {
        (Some(state), Some(key)) => if autorepeat != 0 {
            TapVerdict::Suppress
        } else {
            TapVerdict::ForwardAndSuppress(InputEvent::bare(key, state))
        },
        _ => TapVerdict::PassThrough,
    }
}

/// Keyboard capture through an event tap.
pub struct MacOSCapture {
    state: Lifecycle,
}

impl View for MacOSCapture {
    type V = Lifecycle;

    closed spec fn view(&self) -> Lifecycle {
        self.state
    }
}

impl MacOSCapture {
    /// An idle capture.
    pub fn new() -> (capture: MacOSCapture)
        ensures
            capture@ == Lifecycle::Idle,
    {
        MacOSCapture { state: Lifecycle::Idle }
    }

    /// Admits a start, which is valid on an idle capture only: on a running
    /// one it fails with `Other`. The capture itself changes when the start
    /// ends, not before.
    pub fn start(&self) -> (admitted: Result<PermissionGate, PlatformError>)
        ensures
            checked(
                admitted,
                self@ == Lifecycle::Idle,
                PlatformErrorView::Other(already_running_message()),
            ),
    {
        match self.state {
            Lifecycle::Idle => Ok(PermissionGate { sealed: () }),
            Lifecycle::Running => Err(PlatformError::other("capture is already running")),
        }
    }

    /// Stops the capture. Never fails, and asks for nothing on an idle capture.
    pub fn stop(&mut self) -> (done: Result<Teardown, PlatformError>)
        ensures
            done is Ok,
            (final(self)@, done->Ok_0) == stopped(old(self)@),
    {
        let was_running = match self.state {
            Lifecycle::Running => true,
            Lifecycle::Idle => false,
        };
        self.state = Lifecycle::Idle;
        Ok(Teardown { stop_run_loop: was_running, join_worker: was_running })
    }

    /// The steps of the worker's teardown, in the order to take them.
    pub fn worker_teardown() -> (steps: Vec<TeardownStep>)
        ensures
            steps@ == teardown_order(),
    {
        let mut steps: Vec<TeardownStep> = Vec::new();
        steps.push(TeardownStep::DisableTap);
        steps.push(TeardownStep::ReleaseTap);
        steps.push(TeardownStep::ReleaseCallbackState);
        steps
    }
}

/// Tells whether an event type is a key event, and which state it stands
/// for. The tap reads the fields of key events only.
pub fn event_key_state(event_type: u32) -> (state: Option<KeyState>)
    ensures
        state == key_state_of(event_type),
{
    if event_type == CG_EVENT_KEY_DOWN {
        Some(KeyState::Down)
    } else if event_type == CG_EVENT_KEY_UP {
        Some(KeyState::Up)
    } else {
        None
    }
}

/// Decides what the tap does with one event, from its type and its key
/// code and auto-repeat fields.
///
/// A key event with a canonical identity is forwarded to the callback and the
/// original suppressed, so that what the executor injects is the only event
/// that applications see. The repeats of a held key are suppressed and
/// forwarded to nobody. An event of another type, or a key without
/// identity, passes through: the user is never locked out.
pub fn event_tap_callback(event_type: u32, vkcode: u16, autorepeat: i64) -> (verdict: TapVerdict)
    ensures
        verdict == tap_verdict(event_type, vkcode, autorepeat),
        autorepeat != 0 ==> !(verdict is ForwardAndSuppress),
{
    let state = match event_key_state(event_type) {
        Some(state) => state,
        None => {
            return TapVerdict::PassThrough;
        },
    };
    match vkcode_to_keycode(vkcode) {
        Some(key) => {
            if autorepeat != 0 {
                TapVerdict::Suppress
            } else {
                TapVerdict::ForwardAndSuppress(InputEvent::bare(key, state))
            }
        },
        None => TapVerdict::PassThrough,
    }
}

/// A repeat is never captured: an event whose auto-repeat field is set
/// yields no canonical event, whatever its type and key.
pub proof fn lemma_repeat_is_never_captured(event_type: u32, vkcode: u16, autorepeat: i64)
    requires
        autorepeat != 0,
    ensures
        !(tap_verdict(event_type, vkcode, autorepeat) is ForwardAndSuppress),
{
}

/// Stopping an idle capture asks for nothing: no run loop to stop, no worker
/// to join. A stop leaves the capture idle, so stopping twice is stopping
/// once: the second stop asks for nothing and leaves the capture as the
/// first left it.
pub proof fn lemma_stop_is_idempotent(state: Lifecycle)
    ensures
        stopped(Lifecycle::Idle) == (Lifecycle::Idle, Teardown::nothing()),
        stopped(stopped(state).0) == (stopped(state).0, Teardown::nothing()),
{
}

} // verus!
