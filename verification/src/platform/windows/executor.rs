//! Injection through the OS-wide synthetic-input facility.
//!
//! [`WindowsExecutor`] decides what an action means for the OS and what the
//! count of events sent means for the caller. Sending is synchronous and the
//! caller's part. What is sent comes back through the capture's hook with
//! the injected marker set, and the hook lets it through.

use crate::platform::viewed;
use crate::platform::windows::keycodes::keycode_to_vkcode;
use crate::platform::windows::keycodes::win_vkcode;
use crate::platform::Action;
use crate::platform::KeyState;
use crate::platform::PlatformError;
use crate::platform::PlatformErrorView;
use vstd::prelude::*;

verus! {

/// `KEYEVENTF_KEYUP`: set in `KEYBDINPUT.dwFlags` when the key goes up.
pub const KEYEVENTF_KEYUP: u32 = 0x0002;

/// One keyboard event to send: `KEYBDINPUT.wVk` and `KEYBDINPUT.dwFlags`.
/// Every other field of the record is zero.
#[derive(Debug, Clone, Copy, PartialEq, Eq, Structural)]
pub struct KeyboardInput {
    pub vk: u16,
    pub flags: u32,
}

/// The flags of a transition to `state` of a key with the extra bits `extra`.
pub open spec fn flags_for(extra: u32, state: KeyState) -> u32 {
    if state == KeyState::Up {
        extra | KEYEVENTF_KEYUP
    } else {
        extra
    }
}

/// The event that `action` is sent as: none unless it is `InjectKey`.
pub open spec fn input_for(action: Action) -> Option<KeyboardInput> {
    match action.injection() {
        Some((key, state)) => Some(
            KeyboardInput { vk: win_vkcode(key).0, flags: flags_for(win_vkcode(key).1, state) },
        ),
        None => None,
    }
}

/// What `execute` returns for a count of events sent: of the one event
/// handed over, none sent is the only error.
pub open spec fn settled(sent: u32) -> Result<(), PlatformErrorView> {
    if sent == 0 {
        Err(PlatformErrorView::Other("SendInput returned 0"@))
    } else {
        Ok(())
    }
}

/// What `execute` returns when `sent` events were sent, `None` if nothing
/// was to be sent: then it succeeds at once.
pub open spec fn finished(sent: Option<u32>) -> Result<(), PlatformErrorView> {
    match sent {
        Some(sent) => settled(sent),
        None => Ok(()),
    }
}

/// Injects key events through the synthetic-input facility. Stateless.
#[derive(Debug, Clone, Copy, PartialEq, Eq, Structural)]
pub struct WindowsExecutor;

impl WindowsExecutor {
    /// The executor.
    pub fn new() -> WindowsExecutor {
        WindowsExecutor
    }

    /// Lowers `action` to the event to send. `None` means that `execute`
    /// succeeds at once and no OS call is made: for every action but
    /// `InjectKey`.
    pub fn plan(&self, action: &Action) -> (input: Option<KeyboardInput>)
        ensures
            input == input_for(*action),
            action.injection() is None ==> input is None,
    {
        match action.injection() {
            Some((key, state)) => match keycode_to_vkcode(key) {
                Some((vk, extra)) => {
                    let flags = match state {
                        KeyState::Up => extra | KEYEVENTF_KEYUP,
                        KeyState::Down => extra,
                    };
                    Some(KeyboardInput { vk, flags })
                },
                None => None,
            },
            None => None,
        }
    }

    /// Turns the count of events sent into the result of `execute`.
    pub fn settle(&self, sent: u32) -> (done: Result<(), PlatformError>)
        ensures
            viewed(done) == settled(sent),
    {
        if sent == 0 {
            Err(PlatformError::other("SendInput returned 0"))
        } else {
            Ok(())
        }
    }

    /// Ends `execute`: with the count of events sent, or with `None` where
    /// `plan` asked for none, which is success.
    pub fn finish(&self, sent: Option<u32>) -> (done: Result<(), PlatformError>)
        ensures
            viewed(done) == finished(sent),
    {
        match sent {
            Some(sent) => self.settle(sent),
            None => Ok(()),
        }
    }

    /// Executes `action` with `send` as the OS's way to send one event,
    /// which returns the count of events sent.
    ///
    /// Every action but `InjectKey` succeeds at once: `send` is not called
    /// for them. Otherwise the event that the action is lowered to is sent,
    /// once, and the result is what [`settled`] makes of the count.
    pub fn execute<S: FnOnce(KeyboardInput) -> u32>(&self, action: &Action, send: S) -> (done:
        Result<(), PlatformError>)
        requires
            input_for(*action) matches Some(event) ==> call_requires(send, (event,)),
        ensures
            action.injection() is None ==> done is Ok,
            match input_for(*action) {
                None => done is Ok,
                Some(event) => exists|sent: u32|
                    call_ensures(send, (event,), sent) && viewed(done) == settled(sent),
            },
    {
        match self.plan(action) {
            Some(event) => {
                let sent = send(event);
                self.settle(sent)
            },
            None => Ok(()),
        }
    }
}

/// Only `InjectKey` reaches the OS: every other action is lowered to no
/// event, so `execute` returns success for it without an OS call.
pub proof fn lemma_only_inject_key_is_sent(action: Action)
    requires
        !(action is InjectKey),
    ensures
        input_for(action) is None,
{
}

} // verus!
