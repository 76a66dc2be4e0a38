//! macOS backends.
//!
//! Capture taps the event stream where it enters the window server; the
//! executor posts at the session tap, further down. Both need the
//! Accessibility permission, which the capture checks when it starts
//! (System Settings > Privacy & Security > Accessibility).

pub mod capture;
pub mod executor;
pub mod keycodes;

use crate::platform::macos::capture::MacOSCapture;
use crate::platform::macos::executor::MacOSExecutor;
use crate::platform::Lifecycle;
use crate::platform::PlatformError;
use vstd::prelude::*;

verus! {

/// Returns the capture backend for macOS: an idle capture. The permission is
/// checked when it starts, so making one always succeeds.
pub fn create_input_capture() -> (made: Result<MacOSCapture, PlatformError>)
    ensures
        made matches Ok(capture) && capture@ == Lifecycle::Idle,
{
    Ok(MacOSCapture::new())
}

/// Returns the executor for macOS. Always succeeds.
pub fn create_action_executor() -> (made: Result<MacOSExecutor, PlatformError>)
    ensures
        made is Ok,
{
    Ok(MacOSExecutor::new())
}

} // verus!
