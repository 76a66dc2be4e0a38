[package]
name = "pcunifier"
version = "0.1.0"
edition = "2021"
publish = false

[dependencies]
ashpd = { version = "=0.13.13", default-features = false, features = ["tokio", "input_capture", "remote_desktop", "screencast"] }
env_logger = "=0.11.11"
evdev = { version = "=0.13.2", features = ["tokio", "stream-trait"] }
futures = "=0.3.34"
log = "=0.4.34"
reis = { version = "=0.7.1", features = ["tokio"] }
thiserror = "=2.0.21"
tokio = { version = "=1.54.1", features = ["rt", "sync", "macros", "net", "time"] }
windows-sys = { version = "=0.61.2", features = ["Win32_Foundation", "Win32_System_Threading", "Win32_UI_WindowsAndMessaging", "Win32_UI_Input_KeyboardAndMouse"] }
