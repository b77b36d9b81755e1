//! The properties by which a client talks to the window manager.

pub mod ewmh;
pub mod icccm;
