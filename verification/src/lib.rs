//! Verified core of a cross-platform keyboard capture and injection layer.
//!
//! The crate holds the canonical event model, the per-OS key code tables and
//! the decisions every backend takes. Threads, descriptors and OS calls live
//! with the caller, which feeds what it observed into the functions here.

pub mod platform;
