use pcunifier::platform::linux::detect::classify_display;
use pcunifier::platform::linux::detect::detect_display_server;
use pcunifier::platform::linux::detect::DisplayServer;

#[test]
fn wayland_only_detects_wayland() {
    assert_eq!(classify_display(true, false), Some(DisplayServer::Wayland));
}

#[test]
fn wayland_and_display_still_detects_wayland() {
    assert_eq!(classify_display(true, true), Some(DisplayServer::Wayland));
}

#[test]
fn display_only_detects_x11() {
    assert_eq!(classify_display(false, true), Some(DisplayServer::X11));
}

#[test]
fn no_vars_returns_none() {
    assert_eq!(classify_display(false, false), None);
}

#[test]
fn display_server_variants_are_distinct() {
    assert_ne!(DisplayServer::Wayland, DisplayServer::X11);
}

#[test]
fn detect_reads_presence_from_the_values() {
    assert_eq!(detect_display_server(Some("wayland-0".as_bytes()), None), Some(DisplayServer::Wayland));
    assert_eq!(detect_display_server(Some("wayland-0".as_bytes()), Some(":0".as_bytes())), Some(DisplayServer::Wayland));
    assert_eq!(detect_display_server(None, Some(":0".as_bytes())), Some(DisplayServer::X11));
    assert_eq!(detect_display_server(None, None), None);
}

#[test]
fn detect_takes_an_empty_value_as_absent() {
    assert_eq!(detect_display_server(Some("".as_bytes()), Some(":0".as_bytes())), Some(DisplayServer::X11));
    assert_eq!(detect_display_server(Some("wayland-0".as_bytes()), Some("".as_bytes())), Some(DisplayServer::Wayland));
    assert_eq!(detect_display_server(Some("".as_bytes()), Some("".as_bytes())), None);
    assert_eq!(detect_display_server(Some("".as_bytes()), None), None);
}

#[test]
fn detect_takes_values_that_are_no_text() {
    let odd: &[u8] = &[0xff, 0xfe];
    assert_eq!(detect_display_server(Some(odd), None), Some(DisplayServer::Wayland));
    assert_eq!(detect_display_server(None, Some(odd)), Some(DisplayServer::X11));
}
