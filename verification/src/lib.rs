//! Driver core for a FLIR One thermal camera: maps the device's six bulk
//! endpoints to three logical channels (configuration, file transfer, live
//! frames), encodes the vendor control transfers that arm each channel, and
//! tracks the session's connection and armed state.  USB I/O itself is left
//! to the host stack; this crate makes every decision layered on top of it.

pub mod binder;
pub mod endpoints;
pub mod errors;
pub mod session;
