//! Keyboard capture from the kernel's input devices (`/dev/input/event*`).
//!
//! [`LinuxEvdevCapture`] decides what the backend does: which of the devices
//! found are keyboards, what a raw event means, when the worker's loop ends.
//! Opening the devices and running the worker is the caller's part, which
//! needs the process user to be in the `input` group.

use crate::platform::linux::keycodes::evdev_code;
use crate::platform::linux::keycodes::evdev_key;
use crate::platform::linux::keycodes::evdev_to_keycode;
use crate::platform::linux::keycodes::lemma_evdev_round_trip;
use crate::platform::linux::worker::stopped;
use crate::platform::linux::worker::Shutdown;
use crate::platform::linux::worker::WorkerLink;
use crate::platform::already_running_message;
use crate::platform::InputEvent;
use crate::platform::KeyCode;
use crate::platform::KeyState;
use crate::platform::Lifecycle;
use crate::platform::PlatformError;
use crate::platform::PlatformErrorView;
use tokio::sync::oneshot::Receiver;
use vstd::prelude::*;

verus! {

/// What an input device reports of itself when it is opened.
#[derive(Debug, Clone, PartialEq, Eq)]
pub struct DeviceProbe {
    /// The key codes that the device can send; `None` if it sends no key events.
    pub supported_keys: Option<Vec<u16>>,
}

/// What kind of thing a raw event reports.
#[derive(Debug, Clone, Copy, PartialEq, Eq, Structural)]
pub enum EvdevEventKind {
    /// A key, by its native code.
    Key(u16),
    /// Anything else: synchronisation, motion, LEDs.
    Other,
}

/// One raw event as read from a device.
#[derive(Debug, Clone, Copy, PartialEq, Eq, Structural)]
pub struct EvdevEvent {
    pub kind: EvdevEventKind,
    /// For a key: [`KEY_RELEASED`], [`KEY_PRESSED`], or [`KEY_REPEATED`].
    pub value: i32,
}

/// Value of a key event: the key went up.
pub const KEY_RELEASED: i32 = 0;

/// Value of a key event: the key went down.
pub const KEY_PRESSED: i32 = 1;

/// Value of a key event: the key is held and the kernel repeats it.
pub const KEY_REPEATED: i32 = 2;

/// The error of a start that found no keyboard. Most often the user is not
/// in the `input` group, so the message names that remedy.
pub open spec fn no_keyboard_message() -> Seq<char> {
    "No keyboard devices found in /dev/input/. Ensure this user is in the 'input' group: sudo usermod -aG input $USER (then log out and back in)."@
}

/// Whether native `code` is the code of a letter key.
pub open spec fn is_letter_code(code: u16) -> bool {
    evdev_key(code as u32) matches Some(key) && key.is_letter()
}

/// Whether a device counts as a keyboard: it can send at least one letter.
/// This tells keyboards from mice, joysticks and buttons.
pub open spec fn is_keyboard(probe: DeviceProbe) -> bool {
    probe.supported_keys matches Some(keys) && exists|i: int|
        0 <= i < keys@.len() && is_letter_code(#[trigger] keys@[i])
}

/// The positions of the keyboards among `probes`, in ascending order.
pub open spec fn keyboards_among(probes: Seq<DeviceProbe>) -> Seq<usize>
    decreases probes.len(),
{
    if probes.len() == 0 {
        Seq::empty()
    } else {
        let before = keyboards_among(probes.drop_last());
        if is_keyboard(probes.last()) {
            before.push((probes.len() - 1) as usize)
        } else {
            before
        }
    }
}

/// The state that a key event's value stands for. Only a press and a release
/// are transitions; a repeat, like any other value, is none.
pub open spec fn transition_of(value: i32) -> Option<KeyState> {
    if value == KEY_PRESSED {
        Some(KeyState::Down)
    } else if value == KEY_RELEASED {
        Some(KeyState::Up)
    } else {
        None
    }
}

/// The canonical event that a raw event is captured as, if any: a press or a
/// release of a key with a canonical identity.
pub open spec fn captured(event: EvdevEvent) -> Option<InputEvent> {
    match event.kind {
        EvdevEventKind::Key(code) => match (transition_of(event.value), evdev_key(code as u32)) {
            (Some(state), Some(key)) => Some(InputEvent::bare(key, state)),
            _ => None,
        },
        EvdevEventKind::Other => None,
    }
}

/// Whether a device counts as a keyboard.
pub fn probe_is_keyboard(probe: &DeviceProbe) -> (keyboard: bool)
    ensures
        keyboard == is_keyboard(*probe),
{
    match &probe.supported_keys {
        Some(keys) => {
            let mut i: usize = 0;
            while i < keys.len()
                invariant
                    probe.supported_keys == Some(*keys),
                    i <= keys.len(),
                    forall|j: int| 0 <= j < i ==> !is_letter_code(#[trigger] keys@[j]),
                decreases keys.len() - i,
            {
                match evdev_to_keycode(keys[i] as u32) {
                    Some(key) => {
                        if key.is_letter() {
                            assert(is_letter_code(probe.supported_keys->0@[i as int]));
                            return true;
                        }
                    },
                    None => {},
                }
                i += 1;
            }
            false
        },
        None => false,
    }
}

/// Picks the keyboards among the devices found.
///
/// Returns their positions in `probes`, in ascending order. If there is none
/// the capture cannot start: `Unavailable`, with the remedy in the message.
pub fn find_keyboards(probes: &Vec<DeviceProbe>) -> (found: Result<Vec<usize>, PlatformError>)
    ensures
        match found {
            Ok(keyboards) => keyboards@ == keyboards_among(probes@) && keyboards@.len() > 0,
            Err(e) => keyboards_among(probes@).len() == 0 && e@ == PlatformErrorView::Unavailable(
                no_keyboard_message(),
            ),
        },
{
    let mut keyboards: Vec<usize> = Vec::new();
    let mut i: usize = 0;
    while i < probes.len()
        invariant
            i <= probes.len(),
            keyboards@ == keyboards_among(probes@.take(i as int)),
        decreases probes.len() - i,
    {
        let keyboard = probe_is_keyboard(&probes[i]);
        proof {
            let upto = probes@.take(i + 1);
            assert(upto.drop_last() == probes@.take(i as int));
            assert(upto.last() == probes@[i as int]);
        }
        if keyboard {
            keyboards.push(i);
        }
        i += 1;
    }
    proof {
        assert(probes@.take(i as int) == probes@);
    }
    if keyboards.is_empty() {
        Err(
            PlatformError::unavailable(
                "No keyboard devices found in /dev/input/. Ensure this user is in the 'input' group: sudo usermod -aG input $USER (then log out and back in).",
            ),
        )
    } else {
        Ok(keyboards)
    }
}

/// Converts one raw event to the canonical event to deliver, if any.
///
/// Only a press or a release of a key with a canonical identity is
/// delivered. A repeat never is; a key without identity is dropped.
pub fn handle_evdev_event(event: EvdevEvent) -> (out: Option<InputEvent>)
    ensures
        out == captured(event),
        event.value == KEY_REPEATED ==> out is None,
{
    let code = match event.kind {
        EvdevEventKind::Key(code) => code,
        EvdevEventKind::Other => {
            return None;
        },
    };
    let state = match event.value {
        1 => KeyState::Down,
        0 => KeyState::Up,
        _ => {
            return None;
        },
    };
    match evdev_to_keycode(code as u32) {
        Some(key) => Some(InputEvent::bare(key, state)),
        None => None,
    }
}

/// What the worker's loop woke up for.
#[derive(Debug, Clone, Copy, PartialEq, Eq, Structural)]
pub enum CaptureSignal {
    /// The stop signal fired.
    Stop,
    /// One of the devices delivered an event.
    Event(EvdevEvent),
    /// Reading a device failed.
    ReadFailed,
    /// Every device is gone.
    Ended,
}

/// What the worker's loop does next.
#[derive(Debug, Clone, PartialEq, Eq)]
pub enum CaptureStep {
    /// Hand the event to the callback, then wait again.
    Deliver(InputEvent),
    /// Note that a key without canonical identity changed state, by its
    /// native code, then wait again.
    Unknown(u16),
    /// Wait again.
    Continue,
    /// Leave the loop.
    Exit,
}

/// The native code of the key that `event` reports a press or a release
/// of, if that key has no canonical identity.
pub open spec fn unknown_key(event: EvdevEvent) -> Option<u16> {
    match event.kind {
        EvdevEventKind::Key(code) => if transition_of(event.value) is Some && evdev_key(
            code as u32,
        ) is None {
            Some(code)
        } else {
            None
        },
        EvdevEventKind::Other => None,
    }
}

/// The step that follows `signal`.
pub open spec fn step_after(signal: CaptureSignal) -> CaptureStep {
    match signal {
        CaptureSignal::Event(event) => match (captured(event), unknown_key(event)) {
            (Some(captured), _) => CaptureStep::Deliver(captured),
            (None, Some(code)) => CaptureStep::Unknown(code),
            (None, None) => CaptureStep::Continue,
        },
        CaptureSignal::Stop | CaptureSignal::ReadFailed | CaptureSignal::Ended => CaptureStep::Exit,
    }
}

/// Decides one turn of the worker's loop: events are delivered in the order
/// they arrive, a key without identity is noted and dropped, and the loop
/// ends on the stop signal, on a read error, or when the devices are gone.
pub fn capture_step(signal: CaptureSignal) -> (step: CaptureStep)
    ensures
        step == step_after(signal),
        signal matches CaptureSignal::Event(event) && event.value == KEY_REPEATED ==> step
            == CaptureStep::Continue,
{
    match signal {
        CaptureSignal::Event(event) => match handle_evdev_event(event) {
            Some(captured) => CaptureStep::Deliver(captured),
            None => match event.kind {
                EvdevEventKind::Key(code) => {
                    if event.value == KEY_PRESSED || event.value == KEY_RELEASED {
                        CaptureStep::Unknown(code)
                    } else {
                        CaptureStep::Continue
                    }
                },
                EvdevEventKind::Other => CaptureStep::Continue,
            },
        },
        CaptureSignal::Stop => CaptureStep::Exit,
        CaptureSignal::ReadFailed => CaptureStep::Exit,
        CaptureSignal::Ended => CaptureStep::Exit,
    }
}

/// What a successful start hands to the worker.
pub struct WorkerStart {
    /// The positions, among the probes, of the devices to read.
    pub keyboards: Vec<usize>,
    /// The receiving half of the stop signal.
    pub stop_rx: Receiver<()>,
}

/// Keyboard capture from the kernel's input devices.
pub struct LinuxEvdevCapture {
    link: WorkerLink,
}

impl View for LinuxEvdevCapture {
    type V = Lifecycle;

    closed spec fn view(&self) -> Lifecycle {
        self.link@
    }
}

impl LinuxEvdevCapture {
    /// An idle capture.
    pub fn new() -> (capture: LinuxEvdevCapture)
        ensures
            capture@ == Lifecycle::Idle,
    {
        LinuxEvdevCapture { link: WorkerLink::new() }
    }

    /// Starts the capture on the devices that the caller found.
    ///
    /// A start is valid on an idle capture only: on a running one it fails
    /// with `Other`. It fails with `Unavailable` if none of the devices is a
    /// keyboard. Either way nothing is created and the capture stays as it
    /// was. Otherwise the capture is running, and the caller spawns the
    /// worker on what is returned.
    pub fn start(&mut self, probes: &Vec<DeviceProbe>) -> (started: Result<
        WorkerStart,
        PlatformError,
    >)
        ensures
            started is Ok <==> old(self)@ == Lifecycle::Idle && keyboards_among(probes@).len() > 0,
            match started {
                Ok(worker) => {
                    &&& worker.keyboards@ == keyboards_among(probes@)
                    &&& final(self)@ == Lifecycle::Running
                },
                Err(e) => {
                    &&& final(self)@ == old(self)@
                    &&& e@ == if old(self)@ == Lifecycle::Idle {
                        PlatformErrorView::Unavailable(no_keyboard_message())
                    } else {
                        PlatformErrorView::Other(already_running_message())
                    }
                },
            },
    {
        match self.link.lifecycle() {
            Lifecycle::Idle => {},
            Lifecycle::Running => {
                return Err(PlatformError::other("capture is already running"));
            },
        }
        match find_keyboards(probes) {
            Ok(keyboards) => {
                let stop_rx = self.link.arm();
                Ok(WorkerStart { keyboards, stop_rx })
            },
            Err(e) => Err(e),
        }
    }

    /// Stops the capture. Never fails, and does nothing on an idle capture.
    pub fn stop(&mut self) -> (done: Result<Shutdown, PlatformError>)
        ensures
            done is Ok,
            (final(self)@, done->Ok_0) == stopped(old(self)@),
    {
        Ok(self.link.release())
    }
}

/// What [`keyboards_among`] holds of as many probes as a vector can hold:
/// the position of every keyboard and of nothing else, in strictly ascending
/// order, so each position once.
pub proof fn lemma_keyboards_among_are_the_keyboards(probes: Seq<DeviceProbe>)
    requires
        probes.len() <= usize::MAX,
    ensures
        forall|p: usize|
            #![trigger keyboards_among(probes).contains(p)]
            #![trigger probes[p as int]]
            keyboards_among(probes).contains(p) <==> p < probes.len() && is_keyboard(
                probes[p as int],
            ),
        forall|i: int, j: int|
            0 <= i < j < keyboards_among(probes).len() ==> keyboards_among(probes)[i]
                < keyboards_among(probes)[j],
    decreases probes.len(),
{
    if probes.len() > 0 {
        let before = probes.drop_last();
        let last = (probes.len() - 1) as usize;
        let found = keyboards_among(before);
        let all = keyboards_among(probes);
        lemma_keyboards_among_are_the_keyboards(before);
        assert forall|i: int| 0 <= i < found.len() implies found[i] < last by {
            assert(found.contains(found[i]));
        }
        assert forall|p: usize|
            #![trigger all.contains(p)]
            #![trigger probes[p as int]]
            all.contains(p) <==> p < probes.len() && is_keyboard(probes[p as int]) by {
            if p < last {
                assert(before[p as int] == probes[p as int]);
            }
            if is_keyboard(probes.last()) {
                assert(all == found.push(last));
                assert(all[found.len() as int] == last);
                if found.contains(p) {
                    let i = choose|i: int| 0 <= i < found.len() && found[i] == p;
                    assert(all[i] == p);
                }
                if all.contains(p) && p != last {
                    let i = choose|i: int| 0 <= i < all.len() && all[i] == p;
                    assert(found[i] == p);
                }
            } else {
                assert(all == found);
            }
        }
    }
}

/// The value of a key event that reports a transition to `state`.
pub open spec fn value_of(state: KeyState) -> i32 {
    match state {
        KeyState::Down => KEY_PRESSED,
        KeyState::Up => KEY_RELEASED,
    }
}

/// Capture undoes injection: the native transition that is injected for a
/// canonical key and state is captured as that key and state.
pub proof fn lemma_capture_undoes_injection(key: KeyCode, state: KeyState)
    ensures
        captured(
            EvdevEvent { kind: EvdevEventKind::Key(evdev_code(key) as u16), value: value_of(state) },
        ) == Some(InputEvent::bare(key, state)),
{
    lemma_evdev_round_trip(key);
}

/// A repeat of a held key is never captured: whatever the key, the raw
/// event yields no canonical event, and the worker's loop delivers nothing
/// for it.
pub proof fn lemma_repeat_is_never_captured(kind: EvdevEventKind)
    ensures
        captured(EvdevEvent { kind, value: KEY_REPEATED }) is None,
        step_after(CaptureSignal::Event(EvdevEvent { kind, value: KEY_REPEATED }))
            == CaptureStep::Continue,
{
}

} // verus!
