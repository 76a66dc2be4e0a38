//! Display server detection for Linux sessions.
//!
//! The session manager sets `WAYLAND_DISPLAY` on Wayland and `DISPLAY` on
//! X11. Both set means that an X11 compatibility layer runs beside the
//! compositor: the session is Wayland then.

use vstd::prelude::*;

verus! {

/// The display server protocol of the running session.
#[derive(Debug, Clone, Copy, PartialEq, Eq, Structural)]
pub enum DisplayServer {
    /// A Wayland compositor is present, with or without an X11 compatibility layer.
    Wayland,
    /// Only an X11 server is present.
    X11,
}

/// The session kind that the two presence flags select: Wayland wins whenever
/// it is present, X11 is chosen only alone, and no flag means no session.
pub open spec fn display_for(has_wayland: bool, has_display: bool) -> Option<DisplayServer> {
    if has_wayland {
        Some(DisplayServer::Wayland)
    } else if has_display {
        Some(DisplayServer::X11)
    } else {
        None
    }
}

/// Whether the value of a session variable, as the bytes the OS gave,
/// indicates presence: it is set and not empty.
pub open spec fn indicates_presence(value: Option<&[u8]>) -> bool {
    value matches Some(bytes) && bytes@.len() > 0
}

/// Detects the session from the values of `WAYLAND_DISPLAY` and `DISPLAY`,
/// each the bytes of the value, or `None` if the variable is not set.
///
/// `None` when neither indicates presence: no graphical session.
pub fn detect_display_server(wayland_display: Option<&[u8]>, display: Option<&[u8]>) -> (server:
    Option<DisplayServer>)
    ensures
        server == display_for(indicates_presence(wayland_display), indicates_presence(display)),
{
    let has_wayland = match wayland_display {
        Some(bytes) => bytes.len() > 0,
        None => false,
    };
    let has_display = match display {
        Some(bytes) => bytes.len() > 0,
        None => false,
    };
    classify_display(has_wayland, has_display)
}

/// Classifies the session from the presence of the Wayland and X11 variables.
pub fn classify_display(has_wayland: bool, has_display: bool) -> (server: Option<DisplayServer>)
    ensures
        server == display_for(has_wayland, has_display),
{
    match (has_wayland, has_display) {
        (true, _) => Some(DisplayServer::Wayland),
        (false, true) => Some(DisplayServer::X11),
        (false, false) => None,
    }
}

/// Wayland takes precedence: whenever `WAYLAND_DISPLAY` indicates presence
/// the session is Wayland, whatever `DISPLAY` says. X11 is chosen for
/// `DISPLAY` alone, and without either there is no session.
pub proof fn lemma_wayland_takes_precedence(has_wayland: bool, has_display: bool)
    ensures
        has_wayland ==> display_for(has_wayland, has_display) == Some(DisplayServer::Wayland),
        !has_wayland && has_display ==> display_for(has_wayland, has_display) == Some(
            DisplayServer::X11,
        ),
        !has_wayland && !has_display ==> display_for(has_wayland, has_display) is None,
{
}

} // verus!
