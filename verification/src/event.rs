//! Event handling.

use crate::bits::{lemma_flag_sets_i64, lemma_flags_i64};
use crate::utils::{to_xlib_bool, xlib_bool};
use vstd::prelude::*;

verus! {

/// A set of event kinds, as a window selects them or a sent event names them.
#[derive(Debug, Clone, Copy)]
pub struct EventMask {
    bits: i64,
}

impl View for EventMask {
    type V = i64;

    closed spec fn view(&self) -> i64 {
        self.bits
    }
}

impl EventMask {
    pub const KEY_PRESS: i64 = 0x0000_0001;

    pub const KEY_RELEASE: i64 = 0x0000_0002;

    pub const BUTTON_PRESS: i64 = 0x0000_0004;

    pub const BUTTON_RELEASE: i64 = 0x0000_0008;

    pub const ENTER_WINDOW: i64 = 0x0000_0010;

    pub const LEAVE_WINDOW: i64 = 0x0000_0020;

    pub const POINTER_MOTION: i64 = 0x0000_0040;

    pub const POINTER_MOTION_HINT: i64 = 0x0000_0080;

    pub const BUTTON_1_MOTION: i64 = 0x0000_0100;

    pub const BUTTON_2_MOTION: i64 = 0x0000_0200;

    pub const BUTTON_3_MOTION: i64 = 0x0000_0400;

    pub const BUTTON_4_MOTION: i64 = 0x0000_0800;

    pub const BUTTON_5_MOTION: i64 = 0x0000_1000;

    pub const BUTTON_MOTION: i64 = 0x0000_2000;

    pub const KEYMAP_STATE: i64 = 0x0000_4000;

    pub const EXPOSURE_MASK: i64 = 0x0000_8000;

    pub const VISIBILITY_CHANGE: i64 = 0x0001_0000;

    pub const STRUCTURE_NOTIFY: i64 = 0x0002_0000;

    pub const RESIZE_REDIRECT: i64 = 0x0004_0000;

    pub const SUBSTRUCTURE_NOTIFY: i64 = 0x0008_0000;

    pub const SUBSTRUCTURE_REDIRECT: i64 = 0x0010_0000;

    pub const FOCUS_CHANGE: i64 = 0x0020_0000;

    pub const PROPERTY_CHANGE: i64 = 0x0040_0000;

    pub const COLORMAP_CHANGE: i64 = 0x0080_0000;

    pub const OWNER_GRAB_BUTTON: i64 = 0x0100_0000;

    /// Every flag at once.
    pub const ALL: i64 = 0x01ff_ffff;

    /// Whether `bits` holds no bit but those of the flags.
    pub open spec fn is_valid(bits: i64) -> bool {
        bits & !Self::ALL == 0
    }

    #[verifier::type_invariant]
    spec fn well_formed(&self) -> bool {
        Self::is_valid(self.bits)
    }

    /// The mask without any flag.
    pub fn empty() -> (r: Self)
        ensures
            r@ == 0,
    {
        proof {
            lemma_flags_i64(0, 0, Self::ALL);
        }
        EventMask { bits: 0 }
    }

    /// The mask with every flag.
    pub fn all() -> (r: Self)
        ensures
            r@ == Self::ALL,
    {
        proof {
            lemma_flags_i64(0, 0, Self::ALL);
        }
        EventMask { bits: Self::ALL }
    }

    /// The flags as an integer, which holds no bit but those of the flags.
    pub fn bits(&self) -> (r: i64)
        ensures
            r == self@,
            Self::is_valid(r),
    {
        proof {
            use_type_invariant(self);
        }
        self.bits
    }

    /// The mask with the bits `bits`, unless a bit among them is no flag.
    pub fn from_bits(bits: i64) -> (r: Option<Self>)
        ensures
            r is Some <==> Self::is_valid(bits),
            r is Some ==> r->Some_0@ == bits,
    {
        if bits & !Self::ALL == 0 {
            Some(EventMask { bits })
        } else {
            None
        }
    }

    /// The mask with those of the bits `bits` that are flags.
    pub fn from_bits_truncate(bits: i64) -> (r: Self)
        ensures
            r@ == bits & Self::ALL,
            Self::is_valid(bits) ==> r@ == bits,
    {
        proof {
            lemma_flags_i64(bits, 0, Self::ALL);
        }
        EventMask { bits: bits & Self::ALL }
    }

    pub fn is_empty(&self) -> (r: bool)
        ensures
            r <==> self@ == 0,
    {
        self.bits == 0
    }

    /// Whether every flag of `other` is in `self`.
    pub fn contains(&self, other: Self) -> (r: bool)
        ensures
            r <==> self@ & other@ == other@,
    {
        self.bits & other.bits == other.bits
    }

    /// The flags that are in `self` or in `other`: the least mask that
    /// contains both.
    pub fn union(self, other: Self) -> (r: Self)
        ensures
            r@ == self@ | other@,
            r@ & self@ == self@,
            r@ & other@ == other@,
    {
        proof {
            use_type_invariant(&self);
            use_type_invariant(&other);
            lemma_flags_i64(self.bits, other.bits, Self::ALL);
            lemma_flag_sets_i64(self.bits, other.bits);
        }
        EventMask { bits: self.bits | other.bits }
    }

    /// The flags that are in `self` and not in `other`.
    pub fn difference(self, other: Self) -> (r: Self)
        ensures
            r@ == self@ & !other@,
            r@ & other@ == 0,
    {
        proof {
            use_type_invariant(&self);
            lemma_flags_i64(self.bits, other.bits, Self::ALL);
            lemma_flag_sets_i64(self.bits, other.bits);
        }
        EventMask { bits: self.bits & !other.bits }
    }
}

/// The pointer moved.
#[derive(Debug, Clone, Copy, PartialEq, Eq, Structural)]
pub struct XMotionEvent {
    pub type_: i32,
    pub serial: u64,
    /// Whether another client sent the event.
    pub send_event: i32,
    pub window: u64,
    pub root: u64,
    pub subwindow: u64,
    pub time: u64,
    pub x: i32,
    pub y: i32,
    pub x_root: i32,
    pub y_root: i32,
    pub state: u32,
    pub is_hint: i8,
    pub same_screen: i32,
}

impl XMotionEvent {
    /// The reading that is zero throughout.
    pub open spec fn spec_zeroed() -> XMotionEvent {
        XMotionEvent {
            type_: 0,
            serial: 0,
            send_event: 0,
            window: 0,
            root: 0,
            subwindow: 0,
            time: 0,
            x: 0,
            y: 0,
            x_root: 0,
            y_root: 0,
            state: 0,
            is_hint: 0,
            same_screen: 0,
        }
    }

    /// The reading that is zero throughout.
    pub fn zeroed() -> (r: XMotionEvent)
        ensures
            r == XMotionEvent::spec_zeroed(),
    {
        XMotionEvent {
            type_: 0,
            serial: 0,
            send_event: 0,
            window: 0,
            root: 0,
            subwindow: 0,
            time: 0,
            x: 0,
            y: 0,
            x_root: 0,
            y_root: 0,
            state: 0,
            is_hint: 0,
            same_screen: 0,
        }
    }
}

/// A pointer button was pressed or released.
#[derive(Debug, Clone, Copy, PartialEq, Eq, Structural)]
pub struct XButtonEvent {
    pub type_: i32,
    pub serial: u64,
    /// Whether another client sent the event.
    pub send_event: i32,
    pub window: u64,
    pub root: u64,
    pub subwindow: u64,
    pub time: u64,
    pub x: i32,
    pub y: i32,
    pub x_root: i32,
    pub y_root: i32,
    pub state: u32,
    pub button: u32,
    pub same_screen: i32,
}

impl XButtonEvent {
    /// The reading that is zero throughout.
    pub open spec fn spec_zeroed() -> XButtonEvent {
        XButtonEvent {
            type_: 0,
            serial: 0,
            send_event: 0,
            window: 0,
            root: 0,
            subwindow: 0,
            time: 0,
            x: 0,
            y: 0,
            x_root: 0,
            y_root: 0,
            state: 0,
            button: 0,
            same_screen: 0,
        }
    }

    /// The reading that is zero throughout.
    pub fn zeroed() -> (r: XButtonEvent)
        ensures
            r == XButtonEvent::spec_zeroed(),
    {
        XButtonEvent {
            type_: 0,
            serial: 0,
            send_event: 0,
            window: 0,
            root: 0,
            subwindow: 0,
            time: 0,
            x: 0,
            y: 0,
            x_root: 0,
            y_root: 0,
            state: 0,
            button: 0,
            same_screen: 0,
        }
    }
}

/// The colormap of a window changed, or was installed or uninstalled.
#[derive(Debug, Clone, Copy, PartialEq, Eq, Structural)]
pub struct XColormapEvent {
    pub type_: i32,
    pub serial: u64,
    /// Whether another client sent the event.
    pub send_event: i32,
    pub window: u64,
    pub colormap: u64,
    pub new: i32,
    pub state: i32,
}

impl XColormapEvent {
    /// The reading that is zero throughout.
    pub open spec fn spec_zeroed() -> XColormapEvent {
        XColormapEvent {
            type_: 0,
            serial: 0,
            send_event: 0,
            window: 0,
            colormap: 0,
            new: 0,
            state: 0,
        }
    }

    /// The reading that is zero throughout.
    pub fn zeroed() -> (r: XColormapEvent)
        ensures
            r == XColormapEvent::spec_zeroed(),
    {
        XColormapEvent {
            type_: 0,
            serial: 0,
            send_event: 0,
            window: 0,
            colormap: 0,
            new: 0,
            state: 0,
        }
    }
}

/// The pointer entered or left a window.
#[derive(Debug, Clone, Copy, PartialEq, Eq, Structural)]
pub struct XCrossingEvent {
    pub type_: i32,
    pub serial: u64,
    /// Whether another client sent the event.
    pub send_event: i32,
    pub window: u64,
    pub root: u64,
    pub subwindow: u64,
    pub time: u64,
    pub x: i32,
    pub y: i32,
    pub x_root: i32,
    pub y_root: i32,
    pub mode: i32,
    pub detail: i32,
    pub same_screen: i32,
    pub focus: i32,
    pub state: u32,
}

impl XCrossingEvent {
    /// The reading that is zero throughout.
    pub open spec fn spec_zeroed() -> XCrossingEvent {
        XCrossingEvent {
            type_: 0,
            serial: 0,
            send_event: 0,
            window: 0,
            root: 0,
            subwindow: 0,
            time: 0,
            x: 0,
            y: 0,
            x_root: 0,
            y_root: 0,
            mode: 0,
            detail: 0,
            same_screen: 0,
            focus: 0,
            state: 0,
        }
    }

    /// The reading that is zero throughout.
    pub fn zeroed() -> (r: XCrossingEvent)
        ensures
            r == XCrossingEvent::spec_zeroed(),
    {
        XCrossingEvent {
            type_: 0,
            serial: 0,
            send_event: 0,
            window: 0,
            root: 0,
            subwindow: 0,
            time: 0,
            x: 0,
            y: 0,
            x_root: 0,
            y_root: 0,
            mode: 0,
            detail: 0,
            same_screen: 0,
            focus: 0,
            state: 0,
        }
    }
}

/// A part of a window has to be drawn again.
#[derive(Debug, Clone, Copy, PartialEq, Eq, Structural)]
pub struct XExposeEvent {
    pub type_: i32,
    pub serial: u64,
    /// Whether another client sent the event.
    pub send_event: i32,
    pub window: u64,
    pub x: i32,
    pub y: i32,
    pub width: i32,
    pub height: i32,
    pub count: i32,
}

impl XExposeEvent {
    /// The reading that is zero throughout.
    pub open spec fn spec_zeroed() -> XExposeEvent {
        XExposeEvent {
            type_: 0,
            serial: 0,
            send_event: 0,
            window: 0,
            x: 0,
            y: 0,
            width: 0,
            height: 0,
            count: 0,
        }
    }

    /// The reading that is zero throughout.
    pub fn zeroed() -> (r: XExposeEvent)
        ensures
            r == XExposeEvent::spec_zeroed(),
    {
        XExposeEvent {
            type_: 0,
            serial: 0,
            send_event: 0,
            window: 0,
            x: 0,
            y: 0,
            width: 0,
            height: 0,
            count: 0,
        }
    }
}

/// A part of the source of a copy was not available.
#[derive(Debug, Clone, Copy, PartialEq, Eq, Structural)]
pub struct XGraphicsExposeEvent {
    pub type_: i32,
    pub serial: u64,
    /// Whether another client sent the event.
    pub send_event: i32,
    pub drawable: u64,
    pub x: i32,
    pub y: i32,
    pub width: i32,
    pub height: i32,
    pub count: i32,
    pub major_code: i32,
    pub minor_code: i32,
}

impl XGraphicsExposeEvent {
    /// The reading that is zero throughout.
    pub open spec fn spec_zeroed() -> XGraphicsExposeEvent {
        XGraphicsExposeEvent {
            type_: 0,
            serial: 0,
            send_event: 0,
            drawable: 0,
            x: 0,
            y: 0,
            width: 0,
            height: 0,
            count: 0,
            major_code: 0,
            minor_code: 0,
        }
    }

    /// The reading that is zero throughout.
    pub fn zeroed() -> (r: XGraphicsExposeEvent)
        ensures
            r == XGraphicsExposeEvent::spec_zeroed(),
    {
        XGraphicsExposeEvent {
            type_: 0,
            serial: 0,
            send_event: 0,
            drawable: 0,
            x: 0,
            y: 0,
            width: 0,
            height: 0,
            count: 0,
            major_code: 0,
            minor_code: 0,
        }
    }
}

/// All of the source of a copy was available.
#[derive(Debug, Clone, Copy, PartialEq, Eq, Structural)]
pub struct XNoExposeEvent {
    pub type_: i32,
    pub serial: u64,
    /// Whether another client sent the event.
    pub send_event: i32,
    pub drawable: u64,
    pub major_code: i32,
    pub minor_code: i32,
}

impl XNoExposeEvent {
    /// The reading that is zero throughout.
    pub open spec fn spec_zeroed() -> XNoExposeEvent {
        XNoExposeEvent {
            type_: 0,
            serial: 0,
            send_event: 0,
            drawable: 0,
            major_code: 0,
            minor_code: 0,
        }
    }

    /// The reading that is zero throughout.
    pub fn zeroed() -> (r: XNoExposeEvent)
        ensures
            r == XNoExposeEvent::spec_zeroed(),
    {
        XNoExposeEvent {
            type_: 0,
            serial: 0,
            send_event: 0,
            drawable: 0,
            major_code: 0,
            minor_code: 0,
        }
    }
}

/// A window got or lost the keyboard focus.
#[derive(Debug, Clone, Copy, PartialEq, Eq, Structural)]
pub struct XFocusChangeEvent {
    pub type_: i32,
    pub serial: u64,
    /// Whether another client sent the event.
    pub send_event: i32,
    pub window: u64,
    pub mode: i32,
    pub detail: i32,
}

impl XFocusChangeEvent {
    /// The reading that is zero throughout.
    pub open spec fn spec_zeroed() -> XFocusChangeEvent {
        XFocusChangeEvent {
            type_: 0,
            serial: 0,
            send_event: 0,
            window: 0,
            mode: 0,
            detail: 0,
        }
    }

    /// The reading that is zero throughout.
    pub fn zeroed() -> (r: XFocusChangeEvent)
        ensures
            r == XFocusChangeEvent::spec_zeroed(),
    {
        XFocusChangeEvent {
            type_: 0,
            serial: 0,
            send_event: 0,
            window: 0,
            mode: 0,
            detail: 0,
        }
    }
}

/// The state of the keyboard, as a window gets it with the focus.
#[derive(Debug, Clone, Copy, PartialEq, Eq)]
pub struct XKeymapEvent {
    pub type_: i32,
    pub serial: u64,
    /// Whether another client sent the event.
    pub send_event: i32,
    pub window: u64,
    pub key_vector: [i8; 32],
}

impl XKeymapEvent {
    /// The reading that is zero throughout.
    pub open spec fn spec_zeroed() -> XKeymapEvent {
        XKeymapEvent {
            type_: 0,
            serial: 0,
            send_event: 0,
            window: 0,
            key_vector: [0i8, 0i8, 0i8, 0i8, 0i8, 0i8, 0i8, 0i8, 0i8, 0i8, 0i8, 0i8, 0i8, 0i8, 0i8, 0i8, 0i8, 0i8, 0i8, 0i8, 0i8, 0i8, 0i8, 0i8, 0i8, 0i8, 0i8, 0i8, 0i8, 0i8, 0i8, 0i8],
        }
    }

    /// The reading that is zero throughout.
    pub fn zeroed() -> (r: XKeymapEvent)
        ensures
            r == XKeymapEvent::spec_zeroed(),
    {
        XKeymapEvent {
            type_: 0,
            serial: 0,
            send_event: 0,
            window: 0,
            key_vector: [0, 0, 0, 0, 0, 0, 0, 0, 0, 0, 0, 0, 0, 0, 0, 0, 0, 0, 0, 0, 0, 0, 0, 0, 0, 0, 0, 0, 0, 0, 0, 0],
        }
    }
}

/// A key was pressed or released.
#[derive(Debug, Clone, Copy, PartialEq, Eq, Structural)]
pub struct XKeyEvent {
    pub type_: i32,
    pub serial: u64,
    /// Whether another client sent the event.
    pub send_event: i32,
    pub window: u64,
    pub root: u64,
    pub subwindow: u64,
    pub time: u64,
    pub x: i32,
    pub y: i32,
    pub x_root: i32,
    pub y_root: i32,
    pub state: u32,
    pub keycode: u32,
    pub same_screen: i32,
}

impl XKeyEvent {
    /// The reading that is zero throughout.
    pub open spec fn spec_zeroed() -> XKeyEvent {
        XKeyEvent {
            type_: 0,
            serial: 0,
            send_event: 0,
            window: 0,
            root: 0,
            subwindow: 0,
            time: 0,
            x: 0,
            y: 0,
            x_root: 0,
            y_root: 0,
            state: 0,
            keycode: 0,
            same_screen: 0,
        }
    }

    /// The reading that is zero throughout.
    pub fn zeroed() -> (r: XKeyEvent)
        ensures
            r == XKeyEvent::spec_zeroed(),
    {
        XKeyEvent {
            type_: 0,
            serial: 0,
            send_event: 0,
            window: 0,
            root: 0,
            subwindow: 0,
            time: 0,
            x: 0,
            y: 0,
            x_root: 0,
            y_root: 0,
            state: 0,
            keycode: 0,
            same_screen: 0,
        }
    }
}

/// A property of a window changed or was deleted.
#[derive(Debug, Clone, Copy, PartialEq, Eq, Structural)]
pub struct XPropertyEvent {
    pub type_: i32,
    pub serial: u64,
    /// Whether another client sent the event.
    pub send_event: i32,
    pub window: u64,
    pub atom: u64,
    pub time: u64,
    pub state: i32,
}

impl XPropertyEvent {
    /// The reading that is zero throughout.
    pub open spec fn spec_zeroed() -> XPropertyEvent {
        XPropertyEvent {
            type_: 0,
            serial: 0,
            send_event: 0,
            window: 0,
            atom: 0,
            time: 0,
            state: 0,
        }
    }

    /// The reading that is zero throughout.
    pub fn zeroed() -> (r: XPropertyEvent)
        ensures
            r == XPropertyEvent::spec_zeroed(),
    {
        XPropertyEvent {
            type_: 0,
            serial: 0,
            send_event: 0,
            window: 0,
            atom: 0,
            time: 0,
            state: 0,
        }
    }
}

/// Another client tries to resize a window.
#[derive(Debug, Clone, Copy, PartialEq, Eq, Structural)]
pub struct XResizeRequestEvent {
    pub type_: i32,
    pub serial: u64,
    /// Whether another client sent the event.
    pub send_event: i32,
    pub window: u64,
    pub width: i32,
    pub height: i32,
}

impl XResizeRequestEvent {
    /// The reading that is zero throughout.
    pub open spec fn spec_zeroed() -> XResizeRequestEvent {
        XResizeRequestEvent {
            type_: 0,
            serial: 0,
            send_event: 0,
            window: 0,
            width: 0,
            height: 0,
        }
    }

    /// The reading that is zero throughout.
    pub fn zeroed() -> (r: XResizeRequestEvent)
        ensures
            r == XResizeRequestEvent::spec_zeroed(),
    {
        XResizeRequestEvent {
            type_: 0,
            serial: 0,
            send_event: 0,
            window: 0,
            width: 0,
            height: 0,
        }
    }
}

/// A window was restacked by a circulation.
#[derive(Debug, Clone, Copy, PartialEq, Eq, Structural)]
pub struct XCirculateEvent {
    pub type_: i32,
    pub serial: u64,
    /// Whether another client sent the event.
    pub send_event: i32,
    pub event: u64,
    pub window: u64,
    pub place: i32,
}

impl XCirculateEvent {
    /// The reading that is zero throughout.
    pub open spec fn spec_zeroed() -> XCirculateEvent {
        XCirculateEvent {
            type_: 0,
            serial: 0,
            send_event: 0,
            event: 0,
            window: 0,
            place: 0,
        }
    }

    /// The reading that is zero throughout.
    pub fn zeroed() -> (r: XCirculateEvent)
        ensures
            r == XCirculateEvent::spec_zeroed(),
    {
        XCirculateEvent {
            type_: 0,
            serial: 0,
            send_event: 0,
            event: 0,
            window: 0,
            place: 0,
        }
    }
}

/// The geometry or the stacking of a window changed.
#[derive(Debug, Clone, Copy, PartialEq, Eq, Structural)]
pub struct XConfigureEvent {
    pub type_: i32,
    pub serial: u64,
    /// Whether another client sent the event.
    pub send_event: i32,
    pub event: u64,
    pub window: u64,
    pub x: i32,
    pub y: i32,
    pub width: i32,
    pub height: i32,
    pub border_width: i32,
    pub above: u64,
    pub override_redirect: i32,
}

impl XConfigureEvent {
    /// The reading that is zero throughout.
    pub open spec fn spec_zeroed() -> XConfigureEvent {
        XConfigureEvent {
            type_: 0,
            serial: 0,
            send_event: 0,
            event: 0,
            window: 0,
            x: 0,
            y: 0,
            width: 0,
            height: 0,
            border_width: 0,
            above: 0,
            override_redirect: 0,
        }
    }

    /// The reading that is zero throughout.
    pub fn zeroed() -> (r: XConfigureEvent)
        ensures
            r == XConfigureEvent::spec_zeroed(),
    {
        XConfigureEvent {
            type_: 0,
            serial: 0,
            send_event: 0,
            event: 0,
            window: 0,
            x: 0,
            y: 0,
            width: 0,
            height: 0,
            border_width: 0,
            above: 0,
            override_redirect: 0,
        }
    }
}

/// A window was destroyed.
#[derive(Debug, Clone, Copy, PartialEq, Eq, Structural)]
pub struct XDestroyWindowEvent {
    pub type_: i32,
    pub serial: u64,
    /// Whether another client sent the event.
    pub send_event: i32,
    pub event: u64,
    pub window: u64,
}

impl XDestroyWindowEvent {
    /// The reading that is zero throughout.
    pub open spec fn spec_zeroed() -> XDestroyWindowEvent {
        XDestroyWindowEvent {
            type_: 0,
            serial: 0,
            send_event: 0,
            event: 0,
            window: 0,
        }
    }

    /// The reading that is zero throughout.
    pub fn zeroed() -> (r: XDestroyWindowEvent)
        ensures
            r == XDestroyWindowEvent::spec_zeroed(),
    {
        XDestroyWindowEvent {
            type_: 0,
            serial: 0,
            send_event: 0,
            event: 0,
            window: 0,
        }
    }
}

/// A window moved because its parent was resized.
#[derive(Debug, Clone, Copy, PartialEq, Eq, Structural)]
pub struct XGravityEvent {
    pub type_: i32,
    pub serial: u64,
    /// Whether another client sent the event.
    pub send_event: i32,
    pub event: u64,
    pub window: u64,
    pub x: i32,
    pub y: i32,
}

impl XGravityEvent {
    /// The reading that is zero throughout.
    pub open spec fn spec_zeroed() -> XGravityEvent {
        XGravityEvent {
            type_: 0,
            serial: 0,
            send_event: 0,
            event: 0,
            window: 0,
            x: 0,
            y: 0,
        }
    }

    /// The reading that is zero throughout.
    pub fn zeroed() -> (r: XGravityEvent)
        ensures
            r == XGravityEvent::spec_zeroed(),
    {
        XGravityEvent {
            type_: 0,
            serial: 0,
            send_event: 0,
            event: 0,
            window: 0,
            x: 0,
            y: 0,
        }
    }
}

/// A window was mapped.
#[derive(Debug, Clone, Copy, PartialEq, Eq, Structural)]
pub struct XMapEvent {
    pub type_: i32,
    pub serial: u64,
    /// Whether another client sent the event.
    pub send_event: i32,
    pub event: u64,
    pub window: u64,
    pub override_redirect: i32,
}

impl XMapEvent {
    /// The reading that is zero throughout.
    pub open spec fn spec_zeroed() -> XMapEvent {
        XMapEvent {
            type_: 0,
            serial: 0,
            send_event: 0,
            event: 0,
            window: 0,
            override_redirect: 0,
        }
    }

    /// The reading that is zero throughout.
    pub fn zeroed() -> (r: XMapEvent)
        ensures
            r == XMapEvent::spec_zeroed(),
    {
        XMapEvent {
            type_: 0,
            serial: 0,
            send_event: 0,
            event: 0,
            window: 0,
            override_redirect: 0,
        }
    }
}

/// A window got another parent.
#[derive(Debug, Clone, Copy, PartialEq, Eq, Structural)]
pub struct XReparentEvent {
    pub type_: i32,
    pub serial: u64,
    /// Whether another client sent the event.
    pub send_event: i32,
    pub event: u64,
    pub window: u64,
    pub parent: u64,
    pub x: i32,
    pub y: i32,
    pub override_redirect: i32,
}

impl XReparentEvent {
    /// The reading that is zero throughout.
    pub open spec fn spec_zeroed() -> XReparentEvent {
        XReparentEvent {
            type_: 0,
            serial: 0,
            send_event: 0,
            event: 0,
            window: 0,
            parent: 0,
            x: 0,
            y: 0,
            override_redirect: 0,
        }
    }

    /// The reading that is zero throughout.
    pub fn zeroed() -> (r: XReparentEvent)
        ensures
            r == XReparentEvent::spec_zeroed(),
    {
        XReparentEvent {
            type_: 0,
            serial: 0,
            send_event: 0,
            event: 0,
            window: 0,
            parent: 0,
            x: 0,
            y: 0,
            override_redirect: 0,
        }
    }
}

/// A window was unmapped.
#[derive(Debug, Clone, Copy, PartialEq, Eq, Structural)]
pub struct XUnmapEvent {
    pub type_: i32,
    pub serial: u64,
    /// Whether another client sent the event.
    pub send_event: i32,
    pub event: u64,
    pub window: u64,
    pub from_configure: i32,
}

impl XUnmapEvent {
    /// The reading that is zero throughout.
    pub open spec fn spec_zeroed() -> XUnmapEvent {
        XUnmapEvent {
            type_: 0,
            serial: 0,
            send_event: 0,
            event: 0,
            window: 0,
            from_configure: 0,
        }
    }

    /// The reading that is zero throughout.
    pub fn zeroed() -> (r: XUnmapEvent)
        ensures
            r == XUnmapEvent::spec_zeroed(),
    {
        XUnmapEvent {
            type_: 0,
            serial: 0,
            send_event: 0,
            event: 0,
            window: 0,
            from_configure: 0,
        }
    }
}

/// A window was created.
#[derive(Debug, Clone, Copy, PartialEq, Eq, Structural)]
pub struct XCreateWindowEvent {
    pub type_: i32,
    pub serial: u64,
    /// Whether another client sent the event.
    pub send_event: i32,
    pub parent: u64,
    pub window: u64,
    pub x: i32,
    pub y: i32,
    pub width: i32,
    pub height: i32,
    pub border_width: i32,
    pub override_redirect: i32,
}

impl XCreateWindowEvent {
    /// The reading that is zero throughout.
    pub open spec fn spec_zeroed() -> XCreateWindowEvent {
        XCreateWindowEvent {
            type_: 0,
            serial: 0,
            send_event: 0,
            parent: 0,
            window: 0,
            x: 0,
            y: 0,
            width: 0,
            height: 0,
            border_width: 0,
            override_redirect: 0,
        }
    }

    /// The reading that is zero throughout.
    pub fn zeroed() -> (r: XCreateWindowEvent)
        ensures
            r == XCreateWindowEvent::spec_zeroed(),
    {
        XCreateWindowEvent {
            type_: 0,
            serial: 0,
            send_event: 0,
            parent: 0,
            window: 0,
            x: 0,
            y: 0,
            width: 0,
            height: 0,
            border_width: 0,
            override_redirect: 0,
        }
    }
}

/// Another client tries to circulate the children of a window.
#[derive(Debug, Clone, Copy, PartialEq, Eq, Structural)]
pub struct XCirculateRequestEvent {
    pub type_: i32,
    pub serial: u64,
    /// Whether another client sent the event.
    pub send_event: i32,
    pub parent: u64,
    pub window: u64,
    pub place: i32,
}

impl XCirculateRequestEvent {
    /// The reading that is zero throughout.
    pub open spec fn spec_zeroed() -> XCirculateRequestEvent {
        XCirculateRequestEvent {
            type_: 0,
            serial: 0,
            send_event: 0,
            parent: 0,
            window: 0,
            place: 0,
        }
    }

    /// The reading that is zero throughout.
    pub fn zeroed() -> (r: XCirculateRequestEvent)
        ensures
            r == XCirculateRequestEvent::spec_zeroed(),
    {
        XCirculateRequestEvent {
            type_: 0,
            serial: 0,
            send_event: 0,
            parent: 0,
            window: 0,
            place: 0,
        }
    }
}

/// Another client tries to configure a window.
#[derive(Debug, Clone, Copy, PartialEq, Eq, Structural)]
pub struct XConfigureRequestEvent {
    pub type_: i32,
    pub serial: u64,
    /// Whether another client sent the event.
    pub send_event: i32,
    pub parent: u64,
    pub window: u64,
    pub x: i32,
    pub y: i32,
    pub width: i32,
    pub height: i32,
    pub border_width: i32,
    pub above: u64,
    pub detail: i32,
    pub value_mask: u64,
}

impl XConfigureRequestEvent {
    /// The reading that is zero throughout.
    pub open spec fn spec_zeroed() -> XConfigureRequestEvent {
        XConfigureRequestEvent {
            type_: 0,
            serial: 0,
            send_event: 0,
            parent: 0,
            window: 0,
            x: 0,
            y: 0,
            width: 0,
            height: 0,
            border_width: 0,
            above: 0,
            detail: 0,
            value_mask: 0,
        }
    }

    /// The reading that is zero throughout.
    pub fn zeroed() -> (r: XConfigureRequestEvent)
        ensures
            r == XConfigureRequestEvent::spec_zeroed(),
    {
        XConfigureRequestEvent {
            type_: 0,
            serial: 0,
            send_event: 0,
            parent: 0,
            window: 0,
            x: 0,
            y: 0,
            width: 0,
            height: 0,
            border_width: 0,
            above: 0,
            detail: 0,
            value_mask: 0,
        }
    }
}

/// Another client tries to map a window.
#[derive(Debug, Clone, Copy, PartialEq, Eq, Structural)]
pub struct XMapRequestEvent {
    pub type_: i32,
    pub serial: u64,
    /// Whether another client sent the event.
    pub send_event: i32,
    pub parent: u64,
    pub window: u64,
}

impl XMapRequestEvent {
    /// The reading that is zero throughout.
    pub open spec fn spec_zeroed() -> XMapRequestEvent {
        XMapRequestEvent {
            type_: 0,
            serial: 0,
            send_event: 0,
            parent: 0,
            window: 0,
        }
    }

    /// The reading that is zero throughout.
    pub fn zeroed() -> (r: XMapRequestEvent)
        ensures
            r == XMapRequestEvent::spec_zeroed(),
    {
        XMapRequestEvent {
            type_: 0,
            serial: 0,
            send_event: 0,
            parent: 0,
            window: 0,
        }
    }
}

/// A message from another client.
#[derive(Debug, Clone, Copy, PartialEq, Eq)]
pub struct XClientMessageEvent {
    pub type_: i32,
    pub serial: u64,
    /// Whether another client sent the event.
    pub send_event: i32,
    pub window: u64,
    pub message_type: u64,
    /// The width of the data items: 8, 16 or 32.
    pub format: i32,
    /// The data, read as long integers.
    pub data: [i64; 5],
}

impl XClientMessageEvent {
    /// The reading that is zero throughout.
    pub open spec fn spec_zeroed() -> XClientMessageEvent {
        XClientMessageEvent {
            type_: 0,
            serial: 0,
            send_event: 0,
            window: 0,
            message_type: 0,
            format: 0,
            data: [0i64, 0i64, 0i64, 0i64, 0i64],
        }
    }

    /// The reading that is zero throughout.
    pub fn zeroed() -> (r: XClientMessageEvent)
        ensures
            r == XClientMessageEvent::spec_zeroed(),
    {
        XClientMessageEvent {
            type_: 0,
            serial: 0,
            send_event: 0,
            window: 0,
            message_type: 0,
            format: 0,
            data: [0, 0, 0, 0, 0],
        }
    }
}

/// The mapping of the keyboard or of the pointer changed.
#[derive(Debug, Clone, Copy, PartialEq, Eq, Structural)]
pub struct XMappingEvent {
    pub type_: i32,
    pub serial: u64,
    /// Whether another client sent the event.
    pub send_event: i32,
    pub event: u64,
    pub request: i32,
    pub first_keycode: i32,
    pub count: i32,
}

impl XMappingEvent {
    /// The reading that is zero throughout.
    pub open spec fn spec_zeroed() -> XMappingEvent {
        XMappingEvent {
            type_: 0,
            serial: 0,
            send_event: 0,
            event: 0,
            request: 0,
            first_keycode: 0,
            count: 0,
        }
    }

    /// The reading that is zero throughout.
    pub fn zeroed() -> (r: XMappingEvent)
        ensures
            r == XMappingEvent::spec_zeroed(),
    {
        XMappingEvent {
            type_: 0,
            serial: 0,
            send_event: 0,
            event: 0,
            request: 0,
            first_keycode: 0,
            count: 0,
        }
    }
}

/// A window lost the ownership of a selection.
#[derive(Debug, Clone, Copy, PartialEq, Eq, Structural)]
pub struct XSelectionClearEvent {
    pub type_: i32,
    pub serial: u64,
    /// Whether another client sent the event.
    pub send_event: i32,
    pub window: u64,
    pub selection: u64,
    pub time: u64,
}

impl XSelectionClearEvent {
    /// The reading that is zero throughout.
    pub open spec fn spec_zeroed() -> XSelectionClearEvent {
        XSelectionClearEvent {
            type_: 0,
            serial: 0,
            send_event: 0,
            window: 0,
            selection: 0,
            time: 0,
        }
    }

    /// The reading that is zero throughout.
    pub fn zeroed() -> (r: XSelectionClearEvent)
        ensures
            r == XSelectionClearEvent::spec_zeroed(),
    {
        XSelectionClearEvent {
            type_: 0,
            serial: 0,
            send_event: 0,
            window: 0,
            selection: 0,
            time: 0,
        }
    }
}

/// A selection was converted, or could not be.
#[derive(Debug, Clone, Copy, PartialEq, Eq, Structural)]
pub struct XSelectionEvent {
    pub type_: i32,
    pub serial: u64,
    /// Whether another client sent the event.
    pub send_event: i32,
    pub requestor: u64,
    pub selection: u64,
    pub target: u64,
    pub property: u64,
    pub time: u64,
}

impl XSelectionEvent {
    /// The reading that is zero throughout.
    pub open spec fn spec_zeroed() -> XSelectionEvent {
        XSelectionEvent {
            type_: 0,
            serial: 0,
            send_event: 0,
            requestor: 0,
            selection: 0,
            target: 0,
            property: 0,
            time: 0,
        }
    }

    /// The reading that is zero throughout.
    pub fn zeroed() -> (r: XSelectionEvent)
        ensures
            r == XSelectionEvent::spec_zeroed(),
    {
        XSelectionEvent {
            type_: 0,
            serial: 0,
            send_event: 0,
            requestor: 0,
            selection: 0,
            target: 0,
            property: 0,
            time: 0,
        }
    }
}

/// Another client asks for the conversion of a selection.
#[derive(Debug, Clone, Copy, PartialEq, Eq, Structural)]
pub struct XSelectionRequestEvent {
    pub type_: i32,
    pub serial: u64,
    /// Whether another client sent the event.
    pub send_event: i32,
    pub owner: u64,
    pub requestor: u64,
    pub selection: u64,
    pub target: u64,
    pub property: u64,
    pub time: u64,
}

impl XSelectionRequestEvent {
    /// The reading that is zero throughout.
    pub open spec fn spec_zeroed() -> XSelectionRequestEvent {
        XSelectionRequestEvent {
            type_: 0,
            serial: 0,
            send_event: 0,
            owner: 0,
            requestor: 0,
            selection: 0,
            target: 0,
            property: 0,
            time: 0,
        }
    }

    /// The reading that is zero throughout.
    pub fn zeroed() -> (r: XSelectionRequestEvent)
        ensures
            r == XSelectionRequestEvent::spec_zeroed(),
    {
        XSelectionRequestEvent {
            type_: 0,
            serial: 0,
            send_event: 0,
            owner: 0,
            requestor: 0,
            selection: 0,
            target: 0,
            property: 0,
            time: 0,
        }
    }
}

/// The visibility of a window changed.
#[derive(Debug, Clone, Copy, PartialEq, Eq, Structural)]
pub struct XVisibilityEvent {
    pub type_: i32,
    pub serial: u64,
    /// Whether another client sent the event.
    pub send_event: i32,
    pub window: u64,
    pub state: i32,
}

impl XVisibilityEvent {
    /// The reading that is zero throughout.
    pub open spec fn spec_zeroed() -> XVisibilityEvent {
        XVisibilityEvent {
            type_: 0,
            serial: 0,
            send_event: 0,
            window: 0,
            state: 0,
        }
    }

    /// The reading that is zero throughout.
    pub fn zeroed() -> (r: XVisibilityEvent)
        ensures
            r == XVisibilityEvent::spec_zeroed(),
    {
        XVisibilityEvent {
            type_: 0,
            serial: 0,
            send_event: 0,
            window: 0,
            state: 0,
        }
    }
}

/// An event as Xlib delivers it: its type, and every way of reading the
/// rest of it. Which of the readings means anything depends on the type.
#[derive(Debug, Clone, Copy, PartialEq, Eq)]
pub struct XEvent {
    pub type_: i32,
    pub motion: XMotionEvent,
    pub button: XButtonEvent,
    pub colormap: XColormapEvent,
    pub crossing: XCrossingEvent,
    pub expose: XExposeEvent,
    pub graphics_expose: XGraphicsExposeEvent,
    pub no_expose: XNoExposeEvent,
    pub focus_change: XFocusChangeEvent,
    pub keymap: XKeymapEvent,
    pub key: XKeyEvent,
    pub property: XPropertyEvent,
    pub resize_request: XResizeRequestEvent,
    pub circulate: XCirculateEvent,
    pub configure: XConfigureEvent,
    pub destroy_window: XDestroyWindowEvent,
    pub gravity: XGravityEvent,
    pub map: XMapEvent,
    pub reparent: XReparentEvent,
    pub unmap: XUnmapEvent,
    pub create_window: XCreateWindowEvent,
    pub circulate_request: XCirculateRequestEvent,
    pub configure_request: XConfigureRequestEvent,
    pub map_request: XMapRequestEvent,
    pub client_message: XClientMessageEvent,
    pub mapping: XMappingEvent,
    pub selection_clear: XSelectionClearEvent,
    pub selection: XSelectionEvent,
    pub selection_request: XSelectionRequestEvent,
    pub visibility: XVisibilityEvent,
}

impl XEvent {
    /// The event that is zero throughout.
    pub open spec fn spec_zeroed() -> XEvent {
        XEvent {
            type_: 0,
            motion: XMotionEvent::spec_zeroed(),
            button: XButtonEvent::spec_zeroed(),
            colormap: XColormapEvent::spec_zeroed(),
            crossing: XCrossingEvent::spec_zeroed(),
            expose: XExposeEvent::spec_zeroed(),
            graphics_expose: XGraphicsExposeEvent::spec_zeroed(),
            no_expose: XNoExposeEvent::spec_zeroed(),
            focus_change: XFocusChangeEvent::spec_zeroed(),
            keymap: XKeymapEvent::spec_zeroed(),
            key: XKeyEvent::spec_zeroed(),
            property: XPropertyEvent::spec_zeroed(),
            resize_request: XResizeRequestEvent::spec_zeroed(),
            circulate: XCirculateEvent::spec_zeroed(),
            configure: XConfigureEvent::spec_zeroed(),
            destroy_window: XDestroyWindowEvent::spec_zeroed(),
            gravity: XGravityEvent::spec_zeroed(),
            map: XMapEvent::spec_zeroed(),
            reparent: XReparentEvent::spec_zeroed(),
            unmap: XUnmapEvent::spec_zeroed(),
            create_window: XCreateWindowEvent::spec_zeroed(),
            circulate_request: XCirculateRequestEvent::spec_zeroed(),
            configure_request: XConfigureRequestEvent::spec_zeroed(),
            map_request: XMapRequestEvent::spec_zeroed(),
            client_message: XClientMessageEvent::spec_zeroed(),
            mapping: XMappingEvent::spec_zeroed(),
            selection_clear: XSelectionClearEvent::spec_zeroed(),
            selection: XSelectionEvent::spec_zeroed(),
            selection_request: XSelectionRequestEvent::spec_zeroed(),
            visibility: XVisibilityEvent::spec_zeroed(),
        }
    }

    /// The event that is zero throughout.
    pub fn zeroed() -> (r: XEvent)
        ensures
            r == XEvent::spec_zeroed(),
    {
        XEvent {
            type_: 0,
            motion: XMotionEvent::zeroed(),
            button: XButtonEvent::zeroed(),
            colormap: XColormapEvent::zeroed(),
            crossing: XCrossingEvent::zeroed(),
            expose: XExposeEvent::zeroed(),
            graphics_expose: XGraphicsExposeEvent::zeroed(),
            no_expose: XNoExposeEvent::zeroed(),
            focus_change: XFocusChangeEvent::zeroed(),
            keymap: XKeymapEvent::zeroed(),
            key: XKeyEvent::zeroed(),
            property: XPropertyEvent::zeroed(),
            resize_request: XResizeRequestEvent::zeroed(),
            circulate: XCirculateEvent::zeroed(),
            configure: XConfigureEvent::zeroed(),
            destroy_window: XDestroyWindowEvent::zeroed(),
            gravity: XGravityEvent::zeroed(),
            map: XMapEvent::zeroed(),
            reparent: XReparentEvent::zeroed(),
            unmap: XUnmapEvent::zeroed(),
            create_window: XCreateWindowEvent::zeroed(),
            circulate_request: XCirculateRequestEvent::zeroed(),
            configure_request: XConfigureRequestEvent::zeroed(),
            map_request: XMapRequestEvent::zeroed(),
            client_message: XClientMessageEvent::zeroed(),
            mapping: XMappingEvent::zeroed(),
            selection_clear: XSelectionClearEvent::zeroed(),
            selection: XSelectionEvent::zeroed(),
            selection_request: XSelectionRequestEvent::zeroed(),
            visibility: XVisibilityEvent::zeroed(),
        }
    }
}

/// Where the next event is read into.
#[derive(Debug)]
pub struct EventBuffer {
    event: XEvent,
}

impl View for EventBuffer {
    type V = XEvent;

    closed spec fn view(&self) -> XEvent {
        self.event
    }
}

impl EventBuffer {
    /// A buffer that is zero throughout.
    pub fn new() -> (r: Self)
        ensures
            r@ == XEvent::spec_zeroed(),
    {
        Self { event: XEvent::zeroed() }
    }

    /// A buffer that is zero throughout.
    pub fn zeroed() -> (r: Self)
        ensures
            r@ == XEvent::spec_zeroed(),
    {
        Self::new()
    }

    /// The place that the next event is written to.
    pub fn event_mut(&mut self) -> (r: &mut XEvent)
        ensures
            *r == old(self)@,
            final(self)@ == *final(r),
    {
        &mut self.event
    }

    pub fn raw_event(&self) -> (r: &XEvent)
        ensures
            *r == self@,
    {
        &self.event
    }

    /// The event in the buffer, by its type, with the reading of it that
    /// belongs to the type.
    pub fn event<'a>(&'a self) -> (r: Event<'a>)
        ensures
            r.is_reading_of(self@),
    {
        RawEvent::new(self).into_event()
    }
}

/// An event that was read into a buffer.
pub struct RawEvent<'a> {
    buffer: &'a EventBuffer,
}

impl<'a> View for RawEvent<'a> {
    type V = XEvent;

    closed spec fn view(&self) -> XEvent {
        self.buffer@
    }
}

impl<'a> RawEvent<'a> {
    pub fn new(buffer: &'a EventBuffer) -> (r: RawEvent<'a>)
        ensures
            r@ == buffer@,
    {
        RawEvent { buffer }
    }

    pub fn raw_event(&self) -> (r: &XEvent)
        ensures
            *r == self@,
    {
        &self.buffer.event
    }

    /// The event by its type, with the reading of it that belongs to the
    /// type. A type that the core protocol does not define is handed on as
    /// it is.
    pub fn into_event(self) -> (r: Event<'a>)
        ensures
            r.is_reading_of(self@),
    {
        let event = &self.buffer.event;
        match event.type_ {
            6 => Event::MotionNotify(&event.motion),
            4 => Event::ButtonPress(&event.button),
            5 => Event::ButtonRelease(&event.button),
            32 => Event::ColormapNotify(&event.colormap),
            7 => Event::EnterNotify(&event.crossing),
            8 => Event::LeaveNotify(&event.crossing),
            12 => Event::Expose(&event.expose),
            13 => Event::GraphicsExpose(&event.graphics_expose),
            14 => Event::NoExpose(&event.no_expose),
            9 => Event::FocusIn(&event.focus_change),
            10 => Event::FocusOut(&event.focus_change),
            11 => Event::KeymapNotify(&event.keymap),
            2 => Event::KeyPress(&event.key),
            3 => Event::KeyRelease(&event.key),
            28 => Event::PropertyNotify(&event.property),
            25 => Event::ResizeRequest(&event.resize_request),
            26 => Event::CirculateNotify(&event.circulate),
            22 => Event::ConfigureNotify(&event.configure),
            17 => Event::DestroyNotify(&event.destroy_window),
            24 => Event::GravityNotify(&event.gravity),
            19 => Event::MapNotify(&event.map),
            21 => Event::ReparentNotify(&event.reparent),
            18 => Event::UnmapNotify(&event.unmap),
            16 => Event::CreateNotify(&event.create_window),
            27 => Event::CirculateRequest(&event.circulate_request),
            23 => Event::ConfigureRequest(&event.configure_request),
            20 => Event::MapRequest(&event.map_request),
            33 => Event::ClientMessage(&event.client_message),
            34 => Event::MappingNotify(&event.mapping),
            29 => Event::SelectionClear(&event.selection_clear),
            31 => Event::SelectionNotify(&event.selection),
            30 => Event::SelectionRequest(&event.selection_request),
            15 => Event::VisibilityNotify(&event.visibility),
            event_type => Event::UnknownEvent(event_type),
        }
    }
}

/// The events of the core protocol, each with the reading of the raw event
/// that belongs to it.
#[derive(Debug)]
pub enum Event<'a> {
    MotionNotify(&'a XMotionEvent),
    ButtonPress(&'a XButtonEvent),
    ButtonRelease(&'a XButtonEvent),
    ColormapNotify(&'a XColormapEvent),
    EnterNotify(&'a XCrossingEvent),
    LeaveNotify(&'a XCrossingEvent),
    Expose(&'a XExposeEvent),
    GraphicsExpose(&'a XGraphicsExposeEvent),
    NoExpose(&'a XNoExposeEvent),
    FocusIn(&'a XFocusChangeEvent),
    FocusOut(&'a XFocusChangeEvent),
    KeymapNotify(&'a XKeymapEvent),
    KeyPress(&'a XKeyEvent),
    KeyRelease(&'a XKeyEvent),
    PropertyNotify(&'a XPropertyEvent),
    ResizeRequest(&'a XResizeRequestEvent),
    CirculateNotify(&'a XCirculateEvent),
    ConfigureNotify(&'a XConfigureEvent),
    DestroyNotify(&'a XDestroyWindowEvent),
    GravityNotify(&'a XGravityEvent),
    MapNotify(&'a XMapEvent),
    ReparentNotify(&'a XReparentEvent),
    UnmapNotify(&'a XUnmapEvent),
    CreateNotify(&'a XCreateWindowEvent),
    CirculateRequest(&'a XCirculateRequestEvent),
    ConfigureRequest(&'a XConfigureRequestEvent),
    MapRequest(&'a XMapRequestEvent),
    ClientMessage(&'a XClientMessageEvent),
    MappingNotify(&'a XMappingEvent),
    SelectionClear(&'a XSelectionClearEvent),
    SelectionNotify(&'a XSelectionEvent),
    SelectionRequest(&'a XSelectionRequestEvent),
    VisibilityNotify(&'a XVisibilityEvent),
    /// An event of a type that the core protocol does not define.
    UnknownEvent(i32),
}

/// The least event type of the core protocol.
pub const FIRST_EVENT_TYPE: i32 = 2;

/// The greatest event type of the core protocol that this library knows.
pub const LAST_EVENT_TYPE: i32 = 34;

impl<'a> Event<'a> {
    /// The type number of the event in the protocol.
    pub open spec fn type_code(self) -> i32 {
        match self {
            Event::KeyPress(_) => 2,
            Event::KeyRelease(_) => 3,
            Event::ButtonPress(_) => 4,
            Event::ButtonRelease(_) => 5,
            Event::MotionNotify(_) => 6,
            Event::EnterNotify(_) => 7,
            Event::LeaveNotify(_) => 8,
            Event::FocusIn(_) => 9,
            Event::FocusOut(_) => 10,
            Event::KeymapNotify(_) => 11,
            Event::Expose(_) => 12,
            Event::GraphicsExpose(_) => 13,
            Event::NoExpose(_) => 14,
            Event::VisibilityNotify(_) => 15,
            Event::CreateNotify(_) => 16,
            Event::DestroyNotify(_) => 17,
            Event::UnmapNotify(_) => 18,
            Event::MapNotify(_) => 19,
            Event::MapRequest(_) => 20,
            Event::ReparentNotify(_) => 21,
            Event::ConfigureNotify(_) => 22,
            Event::ConfigureRequest(_) => 23,
            Event::GravityNotify(_) => 24,
            Event::ResizeRequest(_) => 25,
            Event::CirculateNotify(_) => 26,
            Event::CirculateRequest(_) => 27,
            Event::PropertyNotify(_) => 28,
            Event::SelectionClear(_) => 29,
            Event::SelectionRequest(_) => 30,
            Event::SelectionNotify(_) => 31,
            Event::ColormapNotify(_) => 32,
            Event::ClientMessage(_) => 33,
            Event::MappingNotify(_) => 34,
            Event::UnknownEvent(event_type) => event_type,
        }
    }

    /// Whether what the event carries is the reading of `raw` that belongs
    /// to its type.
    pub open spec fn carries(self, raw: XEvent) -> bool {
        match self {
            Event::MotionNotify(e) => *e == raw.motion,
            Event::ButtonPress(e) => *e == raw.button,
            Event::ButtonRelease(e) => *e == raw.button,
            Event::ColormapNotify(e) => *e == raw.colormap,
            Event::EnterNotify(e) => *e == raw.crossing,
            Event::LeaveNotify(e) => *e == raw.crossing,
            Event::Expose(e) => *e == raw.expose,
            Event::GraphicsExpose(e) => *e == raw.graphics_expose,
            Event::NoExpose(e) => *e == raw.no_expose,
            Event::FocusIn(e) => *e == raw.focus_change,
            Event::FocusOut(e) => *e == raw.focus_change,
            Event::KeymapNotify(e) => *e == raw.keymap,
            Event::KeyPress(e) => *e == raw.key,
            Event::KeyRelease(e) => *e == raw.key,
            Event::PropertyNotify(e) => *e == raw.property,
            Event::ResizeRequest(e) => *e == raw.resize_request,
            Event::CirculateNotify(e) => *e == raw.circulate,
            Event::ConfigureNotify(e) => *e == raw.configure,
            Event::DestroyNotify(e) => *e == raw.destroy_window,
            Event::GravityNotify(e) => *e == raw.gravity,
            Event::MapNotify(e) => *e == raw.map,
            Event::ReparentNotify(e) => *e == raw.reparent,
            Event::UnmapNotify(e) => *e == raw.unmap,
            Event::CreateNotify(e) => *e == raw.create_window,
            Event::CirculateRequest(e) => *e == raw.circulate_request,
            Event::ConfigureRequest(e) => *e == raw.configure_request,
            Event::MapRequest(e) => *e == raw.map_request,
            Event::ClientMessage(e) => *e == raw.client_message,
            Event::MappingNotify(e) => *e == raw.mapping,
            Event::SelectionClear(e) => *e == raw.selection_clear,
            Event::SelectionNotify(e) => *e == raw.selection,
            Event::SelectionRequest(e) => *e == raw.selection_request,
            Event::VisibilityNotify(e) => *e == raw.visibility,
            Event::UnknownEvent(_) => true,
        }
    }

    /// Whether the event is `raw`, read by its type: it has the type of
    /// `raw`, it carries the reading of `raw` that belongs to that type, and
    /// it is `UnknownEvent` only where the type is none of the core
    /// protocol.
    pub open spec fn is_reading_of(self, raw: XEvent) -> bool {
        &&& self.type_code() == raw.type_
        &&& self.carries(raw)
        &&& self is UnknownEvent <==> !(FIRST_EVENT_TYPE <= raw.type_ <= LAST_EVENT_TYPE)
    }

    /// The event as a `SimpleEvent`.
    pub open spec fn simple(self) -> SimpleEvent<'a> {
        match self {
            Event::MotionNotify(e) => SimpleEvent::MotionNotify { x: e.x, y: e.y },
            Event::ButtonPress(e) => SimpleEvent::ButtonPress { button: e.button },
            Event::ButtonRelease(e) => SimpleEvent::ButtonRelease { button: e.button },
            Event::KeyPress(e) => SimpleEvent::KeyPress { keycode: e.keycode },
            Event::KeyRelease(e) => SimpleEvent::KeyRelease { keycode: e.keycode },
            Event::EnterNotify(_) => SimpleEvent::EnterNotify,
            Event::LeaveNotify(_) => SimpleEvent::LeaveNotify,
            Event::FocusIn(_) => SimpleEvent::FocusIn,
            Event::FocusOut(_) => SimpleEvent::FocusOut,
            Event::MapNotify(_) => SimpleEvent::MapNotify,
            Event::UnmapNotify(_) => SimpleEvent::UnmapNotify,
            Event::ConfigureNotify(e) => SimpleEvent::ConfigureNotify {
                x: e.x,
                y: e.y,
                width: e.width,
                height: e.height,
            },
            Event::ClientMessage(e) => SimpleEvent::ClientMessage(e),
            e => SimpleEvent::UnknownEvent(e),
        }
    }

    /// Keeps of the event what a simple client looks at. An event that such
    /// a client does not handle is handed on whole.
    pub fn into_simple_event(self) -> (r: SimpleEvent<'a>)
        ensures
            r == self.simple(),
    {
        match self {
            Event::MotionNotify(e) => SimpleEvent::MotionNotify { x: e.x, y: e.y },
            Event::ButtonPress(e) => SimpleEvent::ButtonPress { button: e.button },
            Event::ButtonRelease(e) => SimpleEvent::ButtonRelease { button: e.button },
            Event::KeyPress(e) => SimpleEvent::KeyPress { keycode: e.keycode },
            Event::KeyRelease(e) => SimpleEvent::KeyRelease { keycode: e.keycode },
            Event::EnterNotify(_) => SimpleEvent::EnterNotify,
            Event::LeaveNotify(_) => SimpleEvent::LeaveNotify,
            Event::FocusIn(_) => SimpleEvent::FocusIn,
            Event::FocusOut(_) => SimpleEvent::FocusOut,
            Event::MapNotify(_) => SimpleEvent::MapNotify,
            Event::UnmapNotify(_) => SimpleEvent::UnmapNotify,
            Event::ConfigureNotify(e) => SimpleEvent::ConfigureNotify {
                x: e.x,
                y: e.y,
                width: e.width,
                height: e.height,
            },
            Event::ClientMessage(e) => SimpleEvent::ClientMessage(e),
            e => SimpleEvent::UnknownEvent(e),
        }
    }
}

/// Two readings of one raw event are the same event.
pub proof fn lemma_reading_is_unique(a: Event, b: Event, raw: XEvent)
    requires
        a.is_reading_of(raw),
        b.is_reading_of(raw),
    ensures
        a == b,
{
}

/// A simple event is `UnknownEvent` exactly when it was made of an event
/// that simple clients do not handle, and it is never `DestroyNotify`.
pub proof fn lemma_simple_event_kinds(event: Event)
    ensures
        !(event.simple() is DestroyNotify),
        event.simple() is UnknownEvent ==> event.simple()->UnknownEvent_0 == event,
        event.simple() is UnknownEvent <==> !({
            ||| event is MotionNotify
            ||| event is ButtonPress
            ||| event is ButtonRelease
            ||| event is KeyPress
            ||| event is KeyRelease
            ||| event is EnterNotify
            ||| event is LeaveNotify
            ||| event is FocusIn
            ||| event is FocusOut
            ||| event is MapNotify
            ||| event is UnmapNotify
            ||| event is ConfigureNotify
            ||| event is ClientMessage
        }),
{
}

/// What a simple client looks at in an event.
#[derive(Debug)]
pub enum SimpleEvent<'a> {
    MotionNotify { x: i32, y: i32 },
    ButtonPress { button: u32 },
    ButtonRelease { button: u32 },
    KeyPress { keycode: u32 },
    KeyRelease { keycode: u32 },
    EnterNotify,
    LeaveNotify,
    FocusIn,
    FocusOut,
    DestroyNotify,
    MapNotify,
    UnmapNotify,
    ConfigureNotify { x: i32, y: i32, width: i32, height: i32 },
    ClientMessage(&'a XClientMessageEvent),
    UnknownEvent(Event<'a>),
}

/// The type number of a message from another client.
pub const CLIENT_MESSAGE: i32 = 33;

/// Something that holds an event to be sent.
pub trait EventCreator {
    /// The event held, as contracts speak of it.
    spec fn event(&self) -> XEvent;

    /// The event held, to be read or changed in place.
    fn raw_event_mut(&mut self) -> (r: &mut XEvent)
        ensures
            *r == old(self).event(),
            final(self).event() == *final(r),
    ;
}

/// An event that starts as zero throughout.
#[derive(Debug)]
pub struct AnyEventCreator {
    raw_event: XEvent,
}

impl AnyEventCreator {
    /// All fields of the event are zero.
    pub fn new() -> (r: Self)
        ensures
            r.event() == XEvent::spec_zeroed(),
    {
        Self { raw_event: XEvent::zeroed() }
    }
}

impl EventCreator for AnyEventCreator {
    closed spec fn event(&self) -> XEvent {
        self.raw_event
    }

    fn raw_event_mut(&mut self) -> (r: &mut XEvent) {
        &mut self.raw_event
    }
}

/// The event that a message to another client starts as: zero throughout,
/// but for its type, which is that of a client message, in the event and
/// in its reading as a client message.
pub open spec fn new_client_message() -> XEvent {
    XEvent {
        type_: CLIENT_MESSAGE,
        client_message: XClientMessageEvent {
            type_: CLIENT_MESSAGE,
            ..XClientMessageEvent::spec_zeroed()
        },
        ..XEvent::spec_zeroed()
    }
}

/// A message to another client that starts as zero throughout.
#[derive(Debug)]
pub struct ClientMessageEventCreator(AnyEventCreator);

impl ClientMessageEventCreator {
    /// All fields of the event are zero, but for its type, which is that of
    /// a client message.
    pub fn new() -> (r: Self)
        ensures
            r.event() == new_client_message(),
    {
        let mut event = AnyEventCreator::new();
        {
            let raw_event = event.raw_event_mut();
            raw_event.type_ = CLIENT_MESSAGE;
            raw_event.client_message.type_ = CLIENT_MESSAGE;
        }
        ClientMessageEventCreator(event)
    }

    /// The message, to be read or changed in place.
    pub fn client_message_mut(&mut self) -> (r: &mut XClientMessageEvent)
        ensures
            *r == old(self).event().client_message,
            final(self).event() == (XEvent { client_message: *final(r), ..old(self).event() }),
    {
        &mut self.raw_event_mut().client_message
    }
}

impl EventCreator for ClientMessageEventCreator {
    closed spec fn event(&self) -> XEvent {
        self.0.event()
    }

    fn raw_event_mut(&mut self) -> (r: &mut XEvent) {
        self.0.raw_event_mut()
    }
}

/// The arguments of a request to send an event.
#[derive(Debug, Clone, Copy)]
pub struct SendEventRequest {
    /// The window that the event is sent to.
    pub window: u64,
    /// Whether the event may go on to the ancestors of the window.
    pub propagate: i32,
    /// The clients that have selected any of these events get the event.
    pub event_mask: i64,
    pub event: XEvent,
}

/// Makes the request that sends the event of `event_creator` to the window
/// `window_id`. The event itself is left as it is.
pub fn send_event<T: EventCreator>(
    window_id: u64,
    propagate: bool,
    event_mask: EventMask,
    event_creator: &mut T,
) -> (r: SendEventRequest)
    ensures
        r.window == window_id,
        r.propagate == xlib_bool(propagate),
        r.event_mask == event_mask@,
        EventMask::is_valid(r.event_mask),
        r.event == old(event_creator).event(),
        final(event_creator).event() == old(event_creator).event(),
{
    let propagate = to_xlib_bool(propagate);
    let event = *event_creator.raw_event_mut();
    SendEventRequest { window: window_id, propagate, event_mask: event_mask.bits(), event }
}

} // verus!
