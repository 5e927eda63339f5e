//! Frame synthesis engine for the Redgear A-15 gaming mouse.
//!
//! The device is configured by sending a fixed transaction of 48 binary
//! frames, 8 bytes each, over a HID feature-report channel.  This crate
//! builds that transaction: a factory template, a codec turning each
//! logical setting into replacement frames, a patch engine substituting
//! placeholder byte patterns, a composition policy fixing the order and
//! the cross-setting interactions, and a transport state machine that
//! decides the per-frame send/settle/read-back protocol.  The actual HID
//! I/O and the command line live outside this crate.

pub mod codec;
pub mod compose;
pub mod config;
pub mod frame;
pub mod hexfmt;
pub mod laws;
pub mod patch;
pub mod template;
pub mod transport;
