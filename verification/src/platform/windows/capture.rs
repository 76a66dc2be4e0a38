//! Keyboard capture through a low-level keyboard hook.
//!
//! [`WindowsCapture`] and [`HookState`] decide what the backend does: what
//! the hook does with an event, how a start ends, what a stop has to undo.
//! Installing the
//! hook and running the message loop is the caller's part; no permission is
//! needed for it.
//!
//! The hook procedure gets no context from the OS, so the callback lives in
//! one slot for the whole process: one capture can be active at a time.
//!
//! What the executor injects comes back through the hook with the injected
//! marker set. The hook lets it through, and that alone keeps capture and
//! injection from feeding each other.

use crate::platform::already_running_message;
use crate::platform::checked;
use crate::platform::windows::keycodes::vkcode_to_keycode;
use crate::platform::windows::keycodes::win_key;
use crate::platform::windows::keycodes::win_names;
use crate::platform::InputEvent;
use crate::platform::KeyCode;
use crate::platform::KeyState;
use crate::platform::PlatformError;
use crate::platform::PlatformErrorView;
use vstd::prelude::*;

verus! {

/// `WH_KEYBOARD_LL`: the kind of hook to install.
pub const WH_KEYBOARD_LL: i32 = 13;

/// `HC_ACTION`: the hook is to process the event.
pub const HC_ACTION: i32 = 0;

/// `WM_KEYDOWN`.
pub const WM_KEYDOWN: u32 = 0x0100;

/// `WM_KEYUP`.
pub const WM_KEYUP: u32 = 0x0101;

/// `WM_SYSKEYDOWN`: a key went down while Alt was held.
pub const WM_SYSKEYDOWN: u32 = 0x0104;

/// `WM_SYSKEYUP`: a key went up while Alt was held.
pub const WM_SYSKEYUP: u32 = 0x0105;

/// `WM_QUIT`: posted to the worker to end its message loop.
pub const WM_QUIT: u32 = 0x0012;

/// `LLKHF_EXTENDED`: the key is an extended key.
pub const LLKHF_EXTENDED: u32 = 0x01;

/// `LLKHF_INJECTED`: the event was injected by a process, not typed.
pub const LLKHF_INJECTED: u32 = 0x10;

/// What the hook procedure is called with.
#[derive(Debug, Clone, Copy, PartialEq, Eq, Structural)]
pub struct HookEvent {
    /// The hook code.
    pub n_code: i32,
    /// The message identifier, from `wParam`.
    pub message: u32,
    /// `KBDLLHOOKSTRUCT.vkCode`.
    pub vk_code: u32,
    /// `KBDLLHOOKSTRUCT.flags`.
    pub flags: u32,
}

/// What the hook procedure does with an event.
#[derive(Debug, Clone, PartialEq, Eq)]
pub enum HookVerdict {
    /// Pass the event to the next hook: it reaches the applications.
    CallNext,
    /// Hand the canonical event to the callback, then return non-zero: the
    /// original reaches nobody.
    ForwardAndSuppress(InputEvent),
    /// Return non-zero and hand nothing to the callback: the event is the
    /// repeat of a key that is held, and reaches nobody.
    Suppress,
}

/// Whether the flags carry the injected marker.
pub open spec fn is_injected(flags: u32) -> bool {
    flags & LLKHF_INJECTED != 0
}

/// Whether the flags carry the extended-key bit.
pub open spec fn is_extended(flags: u32) -> bool {
    flags & LLKHF_EXTENDED != 0
}

/// The state that a message stands for, if it is a key message.
pub open spec fn message_state(message: u32) -> Option<KeyState> {
    if message == WM_KEYDOWN || message == WM_SYSKEYDOWN {
        Some(KeyState::Down)
    } else if message == WM_KEYUP || message == WM_SYSKEYUP {
        Some(KeyState::Up)
    } else {
        None
    }
}

/// The physical key that an event is about, as the hook tells keys apart:
/// by virtual key code and extended-key bit.
pub open spec fn physical_key(event: HookEvent) -> (u16, bool) {
    (event.vk_code as u16, is_extended(event.flags))
}

/// Whether the hook handles `event` at all: it is to be processed, it was
/// typed and not injected, and it is a transition of a key with a canonical
/// identity. Anything else passes to the next hook untouched.
pub open spec fn is_typed_key(event: HookEvent) -> bool {
    &&& event.n_code == HC_ACTION
    &&& !is_injected(event.flags)
    &&& message_state(event.message) is Some
    &&& win_key(physical_key(event).0, physical_key(event).1) is Some
}

/// What the hook does with `event` while the keys in `held` are down, and
/// the keys that are down afterwards.
///
/// The first key-down of a key is forwarded and the key is held from then
/// on. A key-down of a held key is the OS repeating it: it is suppressed
/// and yields no event. A key-up is forwarded and releases the key.
pub open spec fn hook_step(held: Set<(u16, bool)>, event: HookEvent) -> (
    Set<(u16, bool)>,
    HookVerdict,
) {
    let physical = physical_key(event);
    if !is_typed_key(event) {
        (held, HookVerdict::CallNext)
    } else {
        let key = win_key(physical.0, physical.1)->0;
        match message_state(event.message)->0 {
            KeyState::Down => if held.contains(physical) {
                (held, HookVerdict::Suppress)
            } else {
                (
                    held.insert(physical),
                    HookVerdict::ForwardAndSuppress(InputEvent::bare(key, KeyState::Down)),
                )
            },
            KeyState::Up => (
                held.remove(physical),
                HookVerdict::ForwardAndSuppress(InputEvent::bare(key, KeyState::Up)),
            ),
        }
    }
}

/// A virtual key code with a canonical identity is below 256.
pub proof fn lemma_known_codes_are_small(vk: u16, extended: bool)
    requires
        win_key(vk, extended) is Some,
    ensures
        vk < 256,
{
    let key = choose|key: KeyCode| win_names(vk, extended, key);
    assert(win_names(vk, extended, key));
}

/// The place of a physical key in the table of held keys.
pub open spec fn slot_of(physical: (u16, bool)) -> int {
    if physical.1 {
        physical.0 + 256
    } else {
        physical.0 as int
    }
}

/// What the hook knows of the keyboard: which keys are down. One state
/// serves one run of the hook, from its installation to its removal.
pub struct HookState {
    down: [bool; 512],
}

impl View for HookState {
    type V = Set<(u16, bool)>;

    /// The physical keys that are down.
    closed spec fn view(&self) -> Set<(u16, bool)> {
        Set::new(|physical: (u16, bool)| physical.0 < 256 && self.down@[slot_of(physical)])
    }
}

impl HookState {
    /// The state of a hook that has seen nothing: no key is down.
    pub fn new() -> (state: HookState)
        ensures
            state@ == Set::<(u16, bool)>::empty(),
    {
        let state = HookState { down: [false; 512] };
        assert(state@ =~= Set::<(u16, bool)>::empty());
        state
    }

    /// Decides what the hook does with one event, and notes which keys are
    /// down.
    ///
    /// An injected event always passes: it is the executor's own. A typed
    /// key with a canonical identity is forwarded to the callback and the
    /// original suppressed, but for the repeats of a held key, which are
    /// suppressed and forwarded to nobody. A key without identity passes,
    /// so that the user is never locked out.
    pub fn hook_proc(&mut self, event: HookEvent) -> (verdict: HookVerdict)
        ensures
            (final(self)@, verdict) == hook_step(old(self)@, event),
            is_injected(event.flags) ==> verdict == HookVerdict::CallNext,
            message_state(event.message) == Some(KeyState::Down) && old(self)@.contains(
                physical_key(event),
            ) ==> !(verdict is ForwardAndSuppress),
    {
        if event.n_code != HC_ACTION {
            return HookVerdict::CallNext;
        }
        if event.flags & LLKHF_INJECTED != 0 {
            return HookVerdict::CallNext;
        }
        let state = if event.message == WM_KEYDOWN || event.message == WM_SYSKEYDOWN {
            KeyState::Down
        } else if event.message == WM_KEYUP || event.message == WM_SYSKEYUP {
            KeyState::Up
        } else {
            return HookVerdict::CallNext;
        };
        let extended = event.flags & LLKHF_EXTENDED != 0;
        let vk = #[verifier::truncate]
        (event.vk_code as u16);
        let key = match vkcode_to_keycode(vk, extended) {
            Some(key) => key,
            None => {
                return HookVerdict::CallNext;
            },
        };
        proof {
            lemma_known_codes_are_small(vk, extended);
        }
        let slot: usize = if extended {
            vk as usize + 256
        } else {
            vk as usize
        };
        let ghost before = self@;
        match state {
            KeyState::Down => {
                if self.down[slot] {
                    HookVerdict::Suppress
                } else {
                    self.down.set(slot, true);
                    assert(self@ =~= before.insert((vk, extended)));
                    HookVerdict::ForwardAndSuppress(InputEvent::bare(key, KeyState::Down))
                }
            },
            KeyState::Up => {
                self.down.set(slot, false);
                assert(self@ =~= before.remove((vk, extended)));
                HookVerdict::ForwardAndSuppress(InputEvent::bare(key, KeyState::Up))
            },
        }
    }
}

/// A repeat is never captured: a key-down of a key that is held yields no
/// event, whatever else is held. So of two key-downs of one key with no
/// key-up between, the second yields none.
pub proof fn lemma_repeat_is_never_captured(held: Set<(u16, bool)>, event: HookEvent)
    requires
        message_state(event.message) == Some(KeyState::Down),
    ensures
        held.contains(physical_key(event)) ==> !(hook_step(held, event).1 is ForwardAndSuppress),
        !(hook_step(hook_step(held, event).0, event).1 is ForwardAndSuppress),
{
}

/// A key-up releases the key: the next key-down of it is captured again.
pub proof fn lemma_release_ends_the_hold(held: Set<(u16, bool)>, up: HookEvent, down: HookEvent)
    requires
        is_typed_key(up),
        is_typed_key(down),
        message_state(up.message) == Some(KeyState::Up),
        message_state(down.message) == Some(KeyState::Down),
        physical_key(up) == physical_key(down),
    ensures
        hook_step(hook_step(held, up).0, down).1 is ForwardAndSuppress,
{
}

/// An injected event passes and leaves the held keys as they are: what the
/// executor sends is never captured and never mistaken for a key held.
pub proof fn lemma_injected_events_pass(held: Set<(u16, bool)>, event: HookEvent)
    requires
        is_injected(event.flags),
    ensures
        hook_step(held, event) == (held, HookVerdict::CallNext),
{
}

/// The error of a start that found the callback slot poisoned.
pub open spec fn slot_poisoned_message() -> Seq<char> {
    "callback mutex poisoned"@
}

/// The error of a worker that could not install the hook.
pub open spec fn hook_failed_message() -> Seq<char> {
    "SetWindowsHookExW failed"@
}

/// The error of a start whose worker died before it reported.
pub open spec fn worker_lost_message() -> Seq<char> {
    "capture thread exited before reporting hook status"@
}

/// What a capture holds of its worker.
pub struct Hold {
    /// The hook's handle.
    pub hook: Option<isize>,
    /// The worker's thread identifier; zero if there is none.
    pub thread_id: u32,
    /// Whether a worker is to be joined.
    pub worker: bool,
}

impl Hold {
    /// What an idle capture holds: nothing.
    pub open spec fn idle() -> Hold {
        Hold { hook: None, thread_id: 0, worker: false }
    }
}

/// What a stop leaves to the caller, in the order to do it.
#[derive(Debug, Clone, Copy, PartialEq, Eq, Structural)]
pub struct Teardown {
    /// Remove this hook first, so that no callback is invoked any more.
    pub unhook: Option<isize>,
    /// Then clear the process-wide callback slot, which holds this
    /// capture's callback. Not due on an idle capture: the slot may hold the
    /// callback of another capture, which is running.
    pub clear_callback: bool,
    /// Then post [`WM_QUIT`] to this thread, which ends its message loop.
    pub post_quit_to: Option<u32>,
    /// Then join the worker.
    pub join_worker: bool,
}

impl Teardown {
    /// Nothing was running: nothing is to be done.
    pub open spec fn nothing() -> Teardown {
        Teardown { unhook: None, clear_callback: false, post_quit_to: None, join_worker: false }
    }
}

/// What a stop makes of a capture that holds `hold`: the capture holds
/// nothing afterwards, and what it held is left to the caller to undo. The
/// callback slot is cleared exactly if the capture held a hook or a worker.
pub open spec fn stopped(hold: Hold) -> (Hold, Teardown) {
    (
        Hold::idle(),
        Teardown {
            unhook: hold.hook,
            clear_callback: hold.hook is Some || hold.worker,
            post_quit_to: if hold.thread_id != 0 {
                Some(hold.thread_id)
            } else {
                None
            },
            join_worker: hold.worker,
        },
    )
}

/// How a start ended.
pub struct StartEnd {
    /// What the start returns.
    pub result: Result<(), PlatformError>,
    /// What is left to undo of a start that failed.
    pub undo: Teardown,
}

/// A start that was admitted: the callback is to be put into the
/// process-wide slot next.
pub struct SlotGate {
    sealed: (),
}

/// A start whose callback is in the slot: the worker is to be launched next,
/// and the start waits for its report.
pub struct HookGate {
    sealed: (),
}

impl SlotGate {
    /// Takes the outcome of storing the callback. If the slot could not be
    /// locked the start ends here, before any worker exists: `Other`.
    pub fn resolve(self, callback_stored: bool) -> (next: Result<HookGate, PlatformError>)
        ensures
            checked(next, callback_stored, PlatformErrorView::Other(slot_poisoned_message())),
    {
        if callback_stored {
            Ok(HookGate { sealed: () })
        } else {
            Err(PlatformError::other("callback mutex poisoned"))
        }
    }
}

/// The worker's report on the hook it installed: the handle and the worker's
/// thread identifier, or `Other` for a null handle.
pub fn hook_report(hook: isize, thread_id: u32) -> (report: Result<(isize, u32), PlatformError>)
    ensures
        checked(report, hook != 0, PlatformErrorView::Other(hook_failed_message())),
        report matches Ok(installed) ==> installed == (hook, thread_id),
{
    if hook == 0 {
        Err(PlatformError::other("SetWindowsHookExW failed"))
    } else {
        Ok((hook, thread_id))
    }
}

/// What is left to undo of a start whose worker reported `report` and was
/// refused all the same: the hook that the worker installed, and the worker.
/// The callback slot is left alone, for a capture that is running reads it.
pub open spec fn undo_refused(report: Option<Result<(isize, u32), PlatformError>>) -> Teardown {
    match report {
        Some(Ok((hook, thread_id))) => Teardown {
            unhook: Some(hook),
            clear_callback: false,
            post_quit_to: if thread_id != 0 {
                Some(thread_id)
            } else {
                None
            },
            join_worker: true,
        },
        _ => Teardown::nothing(),
    }
}

/// What is left to undo of a start whose worker installed no hook: the
/// callback is taken out of the slot again.
pub open spec fn undo_callback() -> Teardown {
    Teardown { unhook: None, clear_callback: true, post_quit_to: None, join_worker: false }
}

/// How a start ends on `report`, for a capture that holds `before`: what the
/// capture holds afterwards, what the start returns, and what is left to
/// undo. `None` means that the worker died without a report.
///
/// Only an idle capture starts. With a hook installed it holds the hook. If
/// the hook failed the worker's error is returned, and if the worker died
/// the start fails with `Other`; either way the callback leaves the slot
/// again. On a capture that is not idle any more the start fails with
/// `Other` and what the worker set up is undone.
pub open spec fn start_end(before: Hold, report: Option<Result<(isize, u32), PlatformError>>) -> (
    Hold,
    Result<(), PlatformErrorView>,
    Teardown,
) {
    if before != Hold::idle() {
        (before, Err(PlatformErrorView::Other(already_running_message())), undo_refused(report))
    } else {
        match report {
            Some(Ok((hook, thread_id))) => (
                Hold { hook: Some(hook), thread_id, worker: true },
                Ok(()),
                Teardown::nothing(),
            ),
            Some(Err(e)) => (before, Err(e@), undo_callback()),
            None => (
                before,
                Err(PlatformErrorView::Other(worker_lost_message())),
                undo_callback(),
            ),
        }
    }
}

impl HookGate {
    /// Takes the worker's report and ends the start.
    pub fn resolve(
        self,
        capture: &mut WindowsCapture,
        report: Option<Result<(isize, u32), PlatformError>>,
    ) -> (end: StartEnd)
        ensures
            (final(capture)@, crate::platform::viewed(end.result), end.undo) == start_end(
                old(capture)@,
                report,
            ),
    {
        let nothing = Teardown {
            unhook: None,
            clear_callback: false,
            post_quit_to: None,
            join_worker: false,
        };
        let callback = Teardown {
            unhook: None,
            clear_callback: true,
            post_quit_to: None,
            join_worker: false,
        };
        if !capture.is_idle() {
            let undo = match report {
                Some(Ok((hook, thread_id))) => Teardown {
                    unhook: Some(hook),
                    clear_callback: false,
                    post_quit_to: if thread_id != 0 {
                        Some(thread_id)
                    } else {
                        None
                    },
                    join_worker: true,
                },
                _ => nothing,
            };
            return StartEnd {
                result: Err(PlatformError::other("capture is already running")),
                undo,
            };
        }
        match report {
            Some(Ok((hook, thread_id))) => {
                capture.hook = Some(hook);
                capture.thread_id = thread_id;
                capture.worker = true;
                StartEnd { result: Ok(()), undo: nothing }
            },
            Some(Err(e)) => StartEnd { result: Err(e), undo: callback },
            None => StartEnd {
                result: Err(
                    PlatformError::other("capture thread exited before reporting hook status"),
                ),
                undo: callback,
            },
        }
    }
}

/// Keyboard capture through a low-level keyboard hook.
pub struct WindowsCapture {
    hook: Option<isize>,
    thread_id: u32,
    worker: bool,
}

impl View for WindowsCapture {
    type V = Hold;

    closed spec fn view(&self) -> Hold {
        Hold { hook: self.hook, thread_id: self.thread_id, worker: self.worker }
    }
}

impl WindowsCapture {
    /// An idle capture.
    pub fn new() -> (capture: WindowsCapture)
        ensures
            capture@ == Hold::idle(),
    {
        WindowsCapture { hook: None, thread_id: 0, worker: false }
    }

    /// Whether the capture holds nothing.
    fn is_idle(&self) -> (idle: bool)
        ensures
            idle == (self@ == Hold::idle()),
    {
        self.hook.is_none() && self.thread_id == 0 && !self.worker
    }

    /// Admits a start, which is valid on an idle capture only: on a capture
    /// that holds a hook or a worker it fails with `Other`, before the
    /// callback slot is touched. The capture itself changes when the start
    /// ends, not before.
    pub fn start(&self) -> (admitted: Result<SlotGate, PlatformError>)
        ensures
            checked(
                admitted,
                self@ == Hold::idle(),
                PlatformErrorView::Other(already_running_message()),
            ),
    {
        if self.is_idle() {
            Ok(SlotGate { sealed: () })
        } else {
            Err(PlatformError::other("capture is already running"))
        }
    }

    /// Stops the capture. Never fails; on an idle capture nothing is to be
    /// done, and the callback slot is left alone.
    pub fn stop(&mut self) -> (done: Result<Teardown, PlatformError>)
        ensures
            done is Ok,
            (final(self)@, done->Ok_0) == stopped(old(self)@),
    {
        let unhook = self.hook.take();
        let post_quit_to = if self.thread_id != 0 {
            Some(self.thread_id)
        } else {
            None
        };
        self.thread_id = 0;
        let join_worker = self.worker;
        self.worker = false;
        let clear_callback = unhook.is_some() || join_worker;
        Ok(Teardown { unhook, clear_callback, post_quit_to, join_worker })
    }
}

/// Stopping an idle capture asks for nothing: no hook to remove, no slot to
/// clear, no thread to tell, no worker to join. A stop leaves the capture
/// idle, so stopping twice is stopping once: the second stop asks for
/// nothing and leaves the capture as the first left it.
pub proof fn lemma_stop_is_idempotent(hold: Hold)
    ensures
        stopped(Hold::idle()) == (Hold::idle(), Teardown::nothing()),
        stopped(stopped(hold).0) == (stopped(hold).0, Teardown::nothing()),
{
}

} // verus!
