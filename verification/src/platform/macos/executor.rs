//! Injection by posting events to the session.
//!
//! [`MacOSExecutor`] decides what an action means for the OS and what the
//! outcome of the post means for the caller. The post itself is synchronous
//! and the caller's part. It happens at the session tap, downstream of the
//! capture's tap, so the capture never sees what the executor injects.

use crate::platform::macos::keycodes::keycode_to_vkcode;
use crate::platform::macos::keycodes::mac_vkcode;
use crate::platform::viewed;
use crate::platform::Action;
use crate::platform::KeyState;
use crate::platform::PlatformError;
use crate::platform::PlatformErrorView;
use vstd::prelude::*;

verus! {

/// `kCGSessionEventTap`: where events are posted, downstream of the tap that
/// captures.
pub const CG_SESSION_EVENT_TAP: u32 = 1;

/// `kCGEventSourceStateHIDSystemState`: the event source reflects the
/// hardware's state.
pub const CG_EVENT_SOURCE_STATE_HID_SYSTEM_STATE: i32 = 1;

/// One keyboard event to post.
#[derive(Debug, Clone, Copy, PartialEq, Eq, Structural)]
pub struct KeyPost {
    /// The virtual key code.
    pub vkcode: u16,
    /// Whether the key goes down.
    pub key_down: bool,
}

/// How posting an event went.
#[derive(Debug, Clone, Copy, PartialEq, Eq, Structural)]
pub enum PostOutcome {
    /// The event was posted.
    Posted,
    /// The event source could not be created.
    NoEventSource,
    /// The event could not be created.
    NoEvent,
}

/// The event that `action` is posted as: none unless it is `InjectKey` of a
/// key that has a native code.
pub open spec fn post_for(action: Action) -> Option<KeyPost> {
    match action.injection() {
        Some((key, state)) => match mac_vkcode(key) {
            Some(vkcode) => Some(KeyPost { vkcode, key_down: state == KeyState::Down }),
            None => None,
        },
        None => None,
    }
}

/// What `execute` returns for each outcome of the post.
pub open spec fn settled(outcome: PostOutcome) -> Result<(), PlatformErrorView> {
    match outcome {
        PostOutcome::Posted => Ok(()),
        PostOutcome::NoEventSource => Err(
            PlatformErrorView::Other("CGEventSourceCreate returned null"@),
        ),
        PostOutcome::NoEvent => Err(
            PlatformErrorView::Other("CGEventCreateKeyboardEvent returned null"@),
        ),
    }
}

/// What `execute` returns when the post went as `outcome` says, `None` if
/// nothing was to be posted: then it succeeds at once.
pub open spec fn finished(outcome: Option<PostOutcome>) -> Result<(), PlatformErrorView> {
    match outcome {
        Some(outcome) => settled(outcome),
        None => Ok(()),
    }
}

/// Injects key events by posting them to the session. Stateless.
#[derive(Debug, Clone, Copy, PartialEq, Eq, Structural)]
pub struct MacOSExecutor;

impl MacOSExecutor {
    /// The executor.
    pub fn new() -> MacOSExecutor {
        MacOSExecutor
    }

    /// Lowers `action` to the event to post. `None` means that `execute`
    /// succeeds at once and no OS call is made: for every action but
    /// `InjectKey`, and for a key without a native code.
    pub fn plan(&self, action: &Action) -> (post: Option<KeyPost>)
        ensures
            post == post_for(*action),
            action.injection() is None ==> post is None,
    {
        match action.injection() {
            Some((key, state)) => match keycode_to_vkcode(key) {
                Some(vkcode) => {
                    let key_down = match state {
                        KeyState::Down => true,
                        KeyState::Up => false,
                    };
                    Some(KeyPost { vkcode, key_down })
                },
                None => None,
            },
            None => None,
        }
    }

    /// Turns the outcome of the post into the result of `execute`: `Other`
    /// if the event or its source could not be created.
    pub fn settle(&self, outcome: PostOutcome) -> (done: Result<(), PlatformError>)
        ensures
            viewed(done) == settled(outcome),
    {
        match outcome {
            PostOutcome::Posted => Ok(()),
            PostOutcome::NoEventSource => Err(
                PlatformError::other("CGEventSourceCreate returned null"),
            ),
            PostOutcome::NoEvent => Err(
                PlatformError::other("CGEventCreateKeyboardEvent returned null"),
            ),
        }
    }

    /// Ends `execute`: with the outcome of the post, or with `None` where
    /// `plan` asked for none, which is success.
    pub fn finish(&self, outcome: Option<PostOutcome>) -> (done: Result<(), PlatformError>)
        ensures
            viewed(done) == finished(outcome),
    {
        match outcome {
            Some(outcome) => self.settle(outcome),
            None => Ok(()),
        }
    }

    /// Executes `action` with `post` as the OS's way to post one event.
    ///
    /// Every action but `InjectKey` succeeds at once, and so does a key
    /// without native code: `post` is not called for them. Otherwise the
    /// event that the action is lowered to is posted, once, and the result
    /// is what [`settled`] makes of the outcome.
    pub fn execute<P: FnOnce(KeyPost) -> PostOutcome>(&self, action: &Action, post: P) -> (done:
        Result<(), PlatformError>)
        requires
            post_for(*action) matches Some(event) ==> call_requires(post, (event,)),
        ensures
            action.injection() is None ==> done is Ok,
            match post_for(*action) {
                None => done is Ok,
                Some(event) => exists|outcome: PostOutcome|
                    call_ensures(post, (event,), outcome) && viewed(done) == settled(outcome),
            },
    {
        match self.plan(action) {
            Some(event) => {
                let outcome = post(event);
                self.settle(outcome)
            },
            None => Ok(()),
        }
    }
}

/// Only `InjectKey` reaches the OS: every other action is lowered to no
/// event, so `execute` returns success for it without an OS call.
pub proof fn lemma_only_inject_key_is_posted(action: Action)
    requires
        !(action is InjectKey),
    ensures
        post_for(action) is None,
{
}

} // verus!
