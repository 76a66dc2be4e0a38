//! Portal backends: injection through the remote-desktop portal, capture
//! through the input-capture portal and the embedded-input protocol.

pub mod capture;
pub mod executor;
