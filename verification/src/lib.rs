//! Verified model of a safe Xlib binding layer.
//!
//! Everything an Xlib client decides before and after a native call is kept
//! here as plain values: which arguments a request carries, which bits a mask
//! holds, how a status code or a zero identifier becomes a typed result, and
//! how a single pending protocol error is buffered. The native calls
//! themselves are made by the code around this library.
//!
//! Xlib's identifiers and long integers are taken to be 64 bits wide, its
//! plain integers 32 bits, as on the platforms that Xlib is commonly built
//! for.

pub mod bits;
pub mod color;
pub mod display;
pub mod error;
pub mod event;
pub mod handle;
pub mod property;
pub mod protocol;
pub mod screen;
pub mod utils;
pub mod visual;
pub mod window;

pub use crate::handle::XlibHandle;
