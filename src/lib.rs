//! A system tray host engine: selection ownership, classification of window
//! server notifications, the ordered strip of embedded icons and its layout,
//! and the shutdown handshake. The engine performs no I/O itself: every
//! operation appends the protocol requests it needs to a queue that the caller
//! carries out against the window server.

pub mod atom;
pub mod event;
pub mod tray;
pub mod laws;
