//! Client-side coordinator for a camera-device session.
//!
//! The library keeps a coherent view of which device is selected, which
//! pipeline configuration is active and which data channels are streaming,
//! while all communication with the device backend happens asynchronously
//! over a duplex message channel that can be slow, drop messages or
//! reconnect at any time.

pub mod channel;
pub mod clock;
pub mod codec;
pub mod config;
pub mod json;
pub mod laws;
pub mod message;
pub mod reconcile;
pub mod session;
pub mod transport;
