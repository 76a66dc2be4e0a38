//! Linux backends.
//!
//! Capture reads the kernel's input devices and needs no display server.
//! Injection goes through the remote-desktop portal and needs a Wayland
//! session: an X11-only session and a session without display are refused.

pub mod detect;
pub mod evdev;
pub mod keycodes;
pub mod wayland;
pub mod worker;

use crate::platform::linux::detect::detect_display_server;
use crate::platform::linux::detect::display_for;
use crate::platform::linux::detect::indicates_presence;
use crate::platform::linux::detect::DisplayServer;
use crate::platform::linux::evdev::capture::LinuxEvdevCapture;
use crate::platform::linux::wayland::executor::queue_bound;
use crate::platform::linux::wayland::executor::InjectionCmd;
use crate::platform::linux::wayland::executor::LinuxWaylandExecutor;
use crate::platform::linux::wayland::executor::CMD_CAPACITY;
use crate::platform::Lifecycle;
use crate::platform::PlatformError;
use crate::platform::PlatformErrorView;
use tokio::sync::mpsc::Receiver;
use vstd::prelude::*;

verus! {

/// The error of an executor asked for in an X11-only session.
pub open spec fn x11_unsupported_message() -> Seq<char> {
    "Pure X11 sessions are not yet supported."@
}

/// The error of an executor asked for outside any graphical session.
pub open spec fn no_display_message() -> Seq<char> {
    "No display server detected."@
}

/// Returns the capture backend for Linux: an idle capture on the kernel's
/// input devices.
pub fn create_input_capture() -> (made: Result<LinuxEvdevCapture, PlatformError>)
    ensures
        made matches Ok(capture) && capture@ == Lifecycle::Idle,
{
    Ok(LinuxEvdevCapture::new())
}

/// Returns the executor for the session that the values of `WAYLAND_DISPLAY`
/// and `DISPLAY` describe, each the bytes of the value, or `None` if the
/// variable is not set.
///
/// A Wayland session gets the portal executor, whose queue is made for
/// `CMD_CAPACITY` injections, with the receiving half of that queue for the
/// caller to hand to the session worker. Any other session is `Unavailable`.
pub fn create_action_executor(wayland_display: Option<&[u8]>, display: Option<&[u8]>) -> (made:
    Result<(LinuxWaylandExecutor, Receiver<InjectionCmd>), PlatformError>)
    ensures
        match display_for(indicates_presence(wayland_display), indicates_presence(display)) {
            Some(DisplayServer::Wayland) => made matches Ok((executor, _)) && queue_bound(
                executor.queue(),
            ) == CMD_CAPACITY,
            Some(DisplayServer::X11) => made matches Err(e) && e@
                == PlatformErrorView::Unavailable(x11_unsupported_message()),
            None => made matches Err(e) && e@ == PlatformErrorView::Unavailable(
                no_display_message(),
            ),
        },
{
    match detect_display_server(wayland_display, display) {
        Some(DisplayServer::Wayland) => LinuxWaylandExecutor::new(),
        Some(DisplayServer::X11) => Err(
            PlatformError::unavailable("Pure X11 sessions are not yet supported."),
        ),
        None => Err(PlatformError::unavailable("No display server detected.")),
    }
}

} // verus!
