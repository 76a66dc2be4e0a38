//! Windows backends.
//!
//! Capture installs a low-level keyboard hook; the executor sends synthetic
//! input. The factories do not hand them out yet: both report `Unavailable`.

pub mod capture;
pub mod executor;
pub mod keycodes;

use crate::platform::windows::capture::WindowsCapture;
use crate::platform::windows::executor::WindowsExecutor;
use crate::platform::PlatformError;
use crate::platform::PlatformErrorView;
use vstd::prelude::*;

verus! {

/// The error of the capture factory.
pub open spec fn capture_unavailable_message() -> Seq<char> {
    "Windows input capture is not yet implemented (M5)."@
}

/// The error of the executor factory.
pub open spec fn executor_unavailable_message() -> Seq<char> {
    "Windows action executor is not yet implemented (M5)."@
}

/// The capture backend for Windows is not handed out yet: `Unavailable`.
pub fn create_input_capture() -> (made: Result<WindowsCapture, PlatformError>)
    ensures
        made matches Err(e) && e@ == PlatformErrorView::Unavailable(capture_unavailable_message()),
{
    Err(PlatformError::unavailable("Windows input capture is not yet implemented (M5)."))
}

/// The executor for Windows is not handed out yet: `Unavailable`.
pub fn create_action_executor() -> (made: Result<WindowsExecutor, PlatformError>)
    ensures
        made matches Err(e) && e@ == PlatformErrorView::Unavailable(
            executor_unavailable_message(),
        ),
{
    Err(PlatformError::unavailable("Windows action executor is not yet implemented (M5)."))
}

} // verus!
