//! Capture from the kernel's input devices.

pub mod capture;
