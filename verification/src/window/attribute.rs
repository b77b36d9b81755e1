//! Window attributes.

use crate::bits::{lemma_flag_sets_i64, lemma_flags_i64, lemma_flags_u64};
use crate::event::EventMask;
use crate::utils::{XLIB_FALSE, XLIB_NONE, XLIB_TRUE};
use vstd::prelude::*;

verus! {

/// Xlib's `CopyFromParent`, as an identifier.
pub const COPY_FROM_PARENT: u64 = 0;

/// Xlib's `ParentRelative`, as an identifier.
pub const PARENT_RELATIVE: u64 = 1;

/// The attributes that a request names among those that it carries.
#[derive(Debug, Clone, Copy)]
pub struct AttributeMask {
    bits: u64,
}

impl View for AttributeMask {
    type V = u64;

    closed spec fn view(&self) -> u64 {
        self.bits
    }
}

impl AttributeMask {
    pub const BACK_PIXMAP: u64 = 0x0001;

    pub const BACK_PIXEL: u64 = 0x0002;

    pub const BORDER_PIXMAP: u64 = 0x0004;

    pub const BORDER_PIXEL: u64 = 0x0008;

    pub const BIT_GRAVITY: u64 = 0x0010;

    pub const WIN_GRAVITY: u64 = 0x0020;

    pub const BACKING_STORE: u64 = 0x0040;

    pub const BACKING_PLANES: u64 = 0x0080;

    pub const BACKING_PIXEL: u64 = 0x0100;

    pub const OVERRIDE_REDIRECT: u64 = 0x0200;

    pub const SAVE_UNDER: u64 = 0x0400;

    pub const EVENT_MASK: u64 = 0x0800;

    pub const DONT_PROPAGATE: u64 = 0x1000;

    pub const COLORMAP: u64 = 0x2000;

    pub const CURSOR: u64 = 0x4000;

    /// Every flag at once.
    pub const ALL: u64 = 0x7fff;

    /// Whether `bits` holds no bit but those of the flags.
    pub open spec fn is_valid(bits: u64) -> bool {
        bits & !Self::ALL == 0
    }

    #[verifier::type_invariant]
    spec fn well_formed(&self) -> bool {
        Self::is_valid(self.bits)
    }

    /// The mask without any flag.
    pub fn empty() -> (r: Self)
        ensures
            r@ == 0,
    {
        proof {
            lemma_flags_u64(0, 0, Self::ALL);
        }
        AttributeMask { bits: 0 }
    }

    /// The flags as an integer, which holds no bit but those of the flags.
    pub fn bits(&self) -> (r: u64)
        ensures
            r == self@,
            Self::is_valid(r),
    {
        proof {
            use_type_invariant(self);
        }
        self.bits
    }

    /// The mask with those of the bits `bits` that are flags.
    pub fn from_bits_truncate(bits: u64) -> (r: Self)
        ensures
            r@ == bits & Self::ALL,
            Self::is_valid(bits) ==> r@ == bits,
    {
        proof {
            lemma_flags_u64(bits, 0, Self::ALL);
        }
        AttributeMask { bits: bits & Self::ALL }
    }

    /// Whether every flag of `other` is in `self`.
    pub fn contains(&self, other: Self) -> (r: bool)
        ensures
            r <==> self@ & other@ == other@,
    {
        self.bits & other.bits == other.bits
    }

    /// The flags that are in `self` or in `other`.
    pub fn union(self, other: Self) -> (r: Self)
        ensures
            r@ == self@ | other@,
    {
        proof {
            use_type_invariant(&self);
            use_type_invariant(&other);
            lemma_flags_u64(self.bits, other.bits, Self::ALL);
        }
        AttributeMask { bits: self.bits | other.bits }
    }
}

/// The events that a window keeps from its ancestors.
#[derive(Debug, Clone, Copy)]
pub struct DoNotPropagateMask {
    bits: i64,
}

impl View for DoNotPropagateMask {
    type V = i64;

    closed spec fn view(&self) -> i64 {
        self.bits
    }
}

impl DoNotPropagateMask {
    pub const KEY_PRESS: i64 = 0x0001;

    pub const KEY_RELEASE: i64 = 0x0002;

    pub const BUTTON_PRESS: i64 = 0x0004;

    pub const BUTTON_RELEASE: i64 = 0x0008;

    pub const POINTER_MOTION: i64 = 0x0040;

    pub const BUTTON_1_MOTION: i64 = 0x0100;

    pub const BUTTON_2_MOTION: i64 = 0x0200;

    pub const BUTTON_3_MOTION: i64 = 0x0400;

    pub const BUTTON_4_MOTION: i64 = 0x0800;

    pub const BUTTON_5_MOTION: i64 = 0x1000;

    pub const BUTTON_MOTION: i64 = 0x2000;

    /// Every flag at once.
    pub const ALL: i64 = 0x3f4f;

    /// Whether `bits` holds no bit but those of the flags.
    pub open spec fn is_valid(bits: i64) -> bool {
        bits & !Self::ALL == 0
    }

    #[verifier::type_invariant]
    spec fn well_formed(&self) -> bool {
        Self::is_valid(self.bits)
    }

    /// The mask without any flag.
    pub fn empty() -> (r: Self)
        ensures
            r@ == 0,
    {
        proof {
            lemma_flags_i64(0, 0, Self::ALL);
        }
        DoNotPropagateMask { bits: 0 }
    }

    /// The flags as an integer, which holds no bit but those of the flags.
    pub fn bits(&self) -> (r: i64)
        ensures
            r == self@,
            Self::is_valid(r),
    {
        proof {
            use_type_invariant(self);
        }
        self.bits
    }

    /// The mask with the bits `bits`, unless a bit among them is no flag.
    pub fn from_bits(bits: i64) -> (r: Option<Self>)
        ensures
            r is Some <==> Self::is_valid(bits),
            r is Some ==> r->Some_0@ == bits,
    {
        if bits & !Self::ALL == 0 {
            Some(DoNotPropagateMask { bits })
        } else {
            None
        }
    }

    /// The mask with those of the bits `bits` that are flags.
    pub fn from_bits_truncate(bits: i64) -> (r: Self)
        ensures
            r@ == bits & Self::ALL,
            Self::is_valid(bits) ==> r@ == bits,
    {
        proof {
            lemma_flags_i64(bits, 0, Self::ALL);
        }
        DoNotPropagateMask { bits: bits & Self::ALL }
    }

    /// Whether every flag of `other` is in `self`.
    pub fn contains(&self, other: Self) -> (r: bool)
        ensures
            r <==> self@ & other@ == other@,
    {
        self.bits & other.bits == other.bits
    }

    /// The flags that are in `self` or in `other`: the least mask that
    /// contains both.
    pub fn union(self, other: Self) -> (r: Self)
        ensures
            r@ == self@ | other@,
            r@ & self@ == self@,
            r@ & other@ == other@,
    {
        proof {
            use_type_invariant(&self);
            use_type_invariant(&other);
            lemma_flags_i64(self.bits, other.bits, Self::ALL);
            lemma_flag_sets_i64(self.bits, other.bits);
        }
        DoNotPropagateMask { bits: self.bits | other.bits }
    }

    pub fn to_xlib_attribute(&self) -> (r: i64)
        ensures
            r == self@,
            Self::is_valid(r),
    {
        self.bits()
    }

    /// Reads an attribute, leaving out the bits that are no flags.
    pub fn from_xlib_attribute(value: i64) -> (r: Self)
        ensures
            r@ == value & Self::ALL,
            Self::is_valid(value) ==> r@ == value,
    {
        match DoNotPropagateMask::from_bits(value) {
            Some(events) => {
                proof {
                    lemma_flags_i64(value, 0, Self::ALL);
                }
                events
            },
            None => DoNotPropagateMask::from_bits_truncate(value),
        }
    }
}

impl EventMask {
    pub fn to_xlib_attribute(&self) -> (r: i64)
        ensures
            r == self@,
            Self::is_valid(r),
    {
        self.bits()
    }

    /// Reads an attribute, leaving out the bits that are no flags.
    pub fn from_xlib_attribute(value: i64) -> (r: Self)
        ensures
            r@ == value & Self::ALL,
            Self::is_valid(value) ==> r@ == value,
    {
        match EventMask::from_bits(value) {
            Some(events) => {
                proof {
                    lemma_flags_i64(value, 0, Self::ALL);
                }
                events
            },
            None => EventMask::from_bits_truncate(value),
        }
    }
}

/// The background of a window.
#[derive(Debug, Copy, Clone, PartialEq, Eq, Structural)]
pub enum BackgroundPixmap {
    Background(u64),
    ParentRelative,
    NoBackground,
}

impl BackgroundPixmap {
    /// The identifier that stands for the background in a request.
    pub open spec fn code(self) -> u64 {
        match self {
            BackgroundPixmap::Background(id) => id,
            BackgroundPixmap::ParentRelative => PARENT_RELATIVE,
            BackgroundPixmap::NoBackground => XLIB_NONE,
        }
    }

    /// Whether the background is the one that its identifier is read as:
    /// a pixmap is, unless its identifier stands for something else.
    pub open spec fn is_canonical(self) -> bool {
        self matches BackgroundPixmap::Background(id) ==> id != PARENT_RELATIVE && id != XLIB_NONE
    }

    pub fn to_xlib_attribute(&self) -> (r: u64)
        ensures
            r == self.code(),
    {
        match *self {
            BackgroundPixmap::Background(id) => id,
            BackgroundPixmap::ParentRelative => PARENT_RELATIVE,
            BackgroundPixmap::NoBackground => XLIB_NONE,
        }
    }

    pub fn from_xlib_attribute(id: u64) -> (r: Self)
        ensures
            r.code() == id,
            r.is_canonical(),
    {
        if id == XLIB_NONE {
            BackgroundPixmap::NoBackground
        } else if id == PARENT_RELATIVE {
            BackgroundPixmap::ParentRelative
        } else {
            BackgroundPixmap::Background(id)
        }
    }
}

/// The border of a window.
#[derive(Debug, Copy, Clone, PartialEq, Eq, Structural)]
pub enum BorderPixmap {
    Border(u64),
    CopyFromParent,
}

impl BorderPixmap {
    /// The identifier that stands for the border in a request.
    pub open spec fn code(self) -> u64 {
        match self {
            BorderPixmap::Border(id) => id,
            BorderPixmap::CopyFromParent => COPY_FROM_PARENT,
        }
    }

    /// Whether the border is the one that its identifier is read as.
    pub open spec fn is_canonical(self) -> bool {
        self matches BorderPixmap::Border(id) ==> id != COPY_FROM_PARENT
    }

    pub fn to_xlib_attribute(&self) -> (r: u64)
        ensures
            r == self.code(),
    {
        match *self {
            BorderPixmap::Border(id) => id,
            BorderPixmap::CopyFromParent => COPY_FROM_PARENT,
        }
    }

    pub fn from_xlib_attribute(id: u64) -> (r: Self)
        ensures
            r.code() == id,
            r.is_canonical(),
    {
        if id == COPY_FROM_PARENT {
            BorderPixmap::CopyFromParent
        } else {
            BorderPixmap::Border(id)
        }
    }
}

/// What becomes of the contents of a window when it is resized.
#[derive(Debug, Copy, Clone, PartialEq, Eq, Structural)]
pub enum Gravity {
    Forget,
    Static,
}

impl Default for Gravity {
    /// `Gravity::Forget`
    fn default() -> (r: Self)
        ensures
            r == Gravity::Forget,
    {
        Gravity::Forget
    }
}

impl Gravity {
    /// The number of the gravity in the protocol.
    pub open spec fn code(self) -> i32 {
        match self {
            Gravity::Forget => 0,
            Gravity::Static => 10,
        }
    }

    pub fn to_xlib_attribute(&self) -> (r: i32)
        ensures
            r == self.code(),
    {
        match *self {
            Gravity::Forget => 0,
            Gravity::Static => 10,
        }
    }

    /// Reads an attribute. A number that names no gravity of this kind is
    /// read as `Gravity::Forget`.
    pub fn from_xlib_attribute(value: i32) -> (r: Self)
        ensures
            r == if value == Gravity::Static.code() { Gravity::Static } else { Gravity::Forget },
    {
        match value {
            0 => Gravity::Forget,
            10 => Gravity::Static,
            _ => Gravity::Forget,
        }
    }
}

/// Where a window goes when its parent is resized.
#[derive(Debug, Copy, Clone, PartialEq, Eq, Structural)]
pub enum WindowGravity {
    NorthWest,
    North,
    NorthEast,
    West,
    Center,
    East,
    SouthWest,
    South,
    SouthEast,
    Unmap,
}

impl Default for WindowGravity {
    /// `WindowGravity::NorthWest`
    fn default() -> (r: Self)
        ensures
            r == WindowGravity::NorthWest,
    {
        WindowGravity::NorthWest
    }
}

impl WindowGravity {
    /// The number of the gravity in the protocol.
    pub open spec fn code(self) -> i32 {
        match self {
            WindowGravity::Unmap => 0,
            WindowGravity::NorthWest => 1,
            WindowGravity::North => 2,
            WindowGravity::NorthEast => 3,
            WindowGravity::West => 4,
            WindowGravity::Center => 5,
            WindowGravity::East => 6,
            WindowGravity::SouthWest => 7,
            WindowGravity::South => 8,
            WindowGravity::SouthEast => 9,
        }
    }

    pub fn to_xlib_attribute(&self) -> (r: i32)
        ensures
            r == self.code(),
    {
        match *self {
            WindowGravity::NorthWest => 1,
            WindowGravity::North => 2,
            WindowGravity::NorthEast => 3,
            WindowGravity::West => 4,
            WindowGravity::Center => 5,
            WindowGravity::East => 6,
            WindowGravity::SouthWest => 7,
            WindowGravity::South => 8,
            WindowGravity::SouthEast => 9,
            WindowGravity::Unmap => 0,
        }
    }

    /// Reads an attribute. A number that names no gravity of this kind is
    /// read as `WindowGravity::NorthWest`.
    pub fn from_xlib_attribute(id: i32) -> (r: Self)
        ensures
            0 <= id <= 9 ==> r.code() == id,
            !(0 <= id <= 9) ==> r == WindowGravity::NorthWest,
    {
        match id {
            1 => WindowGravity::NorthWest,
            2 => WindowGravity::North,
            3 => WindowGravity::NorthEast,
            4 => WindowGravity::West,
            5 => WindowGravity::Center,
            6 => WindowGravity::East,
            7 => WindowGravity::SouthWest,
            8 => WindowGravity::South,
            9 => WindowGravity::SouthEast,
            0 => WindowGravity::Unmap,
            _ => WindowGravity::NorthWest,
        }
    }
}

/// When the server keeps the contents of a window that is not visible.
#[derive(Debug, Clone, Copy, PartialEq, Eq, Structural)]
pub enum BackingStore {
    NotUseful,
    WhenMapped,
    Always,
}

impl Default for BackingStore {
    fn default() -> (r: Self)
        ensures
            r == BackingStore::NotUseful,
    {
        BackingStore::NotUseful
    }
}

impl BackingStore {
    /// The number of the hint in the protocol.
    pub open spec fn code(self) -> i32 {
        match self {
            BackingStore::NotUseful => 0,
            BackingStore::WhenMapped => 1,
            BackingStore::Always => 2,
        }
    }

    pub fn to_xlib_attribute(&self) -> (r: i32)
        ensures
            r == self.code(),
    {
        match *self {
            BackingStore::NotUseful => 0,
            BackingStore::WhenMapped => 1,
            BackingStore::Always => 2,
        }
    }

    /// Reads an attribute. A number that names no hint is read as
    /// `BackingStore::NotUseful`.
    pub fn from_xlib_attribute(value: i32) -> (r: Self)
        ensures
            0 <= value <= 2 ==> r.code() == value,
            !(0 <= value <= 2) ==> r == BackingStore::NotUseful,
    {
        match value {
            0 => BackingStore::NotUseful,
            1 => BackingStore::WhenMapped,
            2 => BackingStore::Always,
            _ => BackingStore::NotUseful,
        }
    }
}

/// Whether the server should keep what a window covers.
#[derive(Debug, Copy, Clone, PartialEq, Eq, Structural)]
pub struct SaveUnder(pub bool);

impl Default for SaveUnder {
    fn default() -> (r: Self)
        ensures
            r == SaveUnder(false),
    {
        SaveUnder(false)
    }
}

impl SaveUnder {
    pub fn to_xlib_attribute(&self) -> (r: i32)
        ensures
            r == if self.0 { XLIB_TRUE } else { XLIB_FALSE },
    {
        if self.0 {
            XLIB_TRUE
        } else {
            XLIB_FALSE
        }
    }

    /// Reads an attribute. Anything but Xlib's `True` is read as false.
    pub fn from_xlib_attribute(value: i32) -> (r: Self)
        ensures
            r == SaveUnder(value == XLIB_TRUE),
    {
        match value {
            1 => SaveUnder(true),
            0 => SaveUnder(false),
            _ => SaveUnder(false),
        }
    }
}

/// Whether a window is kept from the window manager.
#[derive(Debug, Copy, Clone, PartialEq, Eq, Structural)]
pub struct OverrideRedirect(pub bool);

impl Default for OverrideRedirect {
    fn default() -> (r: Self)
        ensures
            r == OverrideRedirect(false),
    {
        OverrideRedirect(false)
    }
}

impl OverrideRedirect {
    pub fn to_xlib_attribute(&self) -> (r: i32)
        ensures
            r == if self.0 { XLIB_TRUE } else { XLIB_FALSE },
    {
        if self.0 {
            XLIB_TRUE
        } else {
            XLIB_FALSE
        }
    }

    /// Reads an attribute. Anything but Xlib's `True` is read as false.
    pub fn from_xlib_attribute(value: i32) -> (r: Self)
        ensures
            r == OverrideRedirect(value == XLIB_TRUE),
    {
        match value {
            1 => OverrideRedirect(true),
            0 => OverrideRedirect(false),
            _ => OverrideRedirect(false),
        }
    }
}

/// The colormap of a window.
#[derive(Debug, Clone, Copy, PartialEq, Eq, Structural)]
pub enum Colormap {
    Colormap(u64),
    CopyFromParent,
}

impl Colormap {
    /// The identifier that stands for the colormap in a request.
    pub open spec fn code(self) -> u64 {
        match self {
            Colormap::Colormap(id) => id,
            Colormap::CopyFromParent => COPY_FROM_PARENT,
        }
    }

    /// Whether the colormap is the one that its identifier is read as.
    pub open spec fn is_canonical(self) -> bool {
        self matches Colormap::Colormap(id) ==> id != COPY_FROM_PARENT
    }

    pub fn to_xlib_attribute(&self) -> (r: u64)
        ensures
            r == self.code(),
    {
        match *self {
            Colormap::Colormap(id) => id,
            Colormap::CopyFromParent => COPY_FROM_PARENT,
        }
    }

    pub fn from_xlib_attribute(id: u64) -> (r: Self)
        ensures
            r.code() == id,
            r.is_canonical(),
    {
        if id == COPY_FROM_PARENT {
            Colormap::CopyFromParent
        } else {
            Colormap::Colormap(id)
        }
    }
}

/// The cursor of a window.
#[derive(Debug, Clone, Copy, PartialEq, Eq, Structural)]
pub enum Cursor {
    Cursor(u64),
    NoCursor,
}

impl Cursor {
    /// The identifier that stands for the cursor in a request.
    pub open spec fn code(self) -> u64 {
        match self {
            Cursor::Cursor(id) => id,
            Cursor::NoCursor => XLIB_NONE,
        }
    }

    /// Whether the cursor is the one that its identifier is read as.
    pub open spec fn is_canonical(self) -> bool {
        self matches Cursor::Cursor(id) ==> id != XLIB_NONE
    }

    pub fn to_xlib_attribute(&self) -> (r: u64)
        ensures
            r == self.code(),
    {
        match *self {
            Cursor::Cursor(id) => id,
            Cursor::NoCursor => XLIB_NONE,
        }
    }

    pub fn from_xlib_attribute(id: u64) -> (r: Self)
        ensures
            r.code() == id,
            r.is_canonical(),
    {
        if id == XLIB_NONE {
            Cursor::NoCursor
        } else {
            Cursor::Cursor(id)
        }
    }
}

/// The attributes of a window as a request carries them.
#[derive(Debug, Clone, Copy, PartialEq, Eq, Structural)]
pub struct XSetWindowAttributes {
    pub background_pixmap: u64,
    pub background_pixel: u64,
    pub border_pixmap: u64,
    pub border_pixel: u64,
    pub bit_gravity: i32,
    pub win_gravity: i32,
    pub backing_store: i32,
    pub backing_planes: u64,
    pub backing_pixel: u64,
    pub save_under: i32,
    pub event_mask: i64,
    pub do_not_propagate_mask: i64,
    pub override_redirect: i32,
    pub colormap: u64,
    pub cursor: u64,
}

/// The attributes that a window has where a request names none.
pub open spec fn default_attributes() -> XSetWindowAttributes {
    XSetWindowAttributes {
        background_pixmap: XLIB_NONE,
        background_pixel: 0,
        border_pixmap: COPY_FROM_PARENT,
        border_pixel: 0,
        bit_gravity: Gravity::Forget.code(),
        win_gravity: WindowGravity::NorthWest.code(),
        backing_store: BackingStore::NotUseful.code(),
        backing_planes: u64::MAX,
        backing_pixel: 0,
        save_under: XLIB_FALSE,
        event_mask: 0,
        do_not_propagate_mask: 0,
        override_redirect: XLIB_FALSE,
        colormap: COPY_FROM_PARENT,
        cursor: XLIB_NONE,
    }
}

/// Every flag of `AttributeMask` is valid by itself.
pub proof fn lemma_attribute_flags_are_valid()
    by (bit_vector)
    ensures
        AttributeMask::is_valid(AttributeMask::BACK_PIXMAP),
        AttributeMask::is_valid(AttributeMask::BACK_PIXEL),
        AttributeMask::is_valid(AttributeMask::BORDER_PIXMAP),
        AttributeMask::is_valid(AttributeMask::BORDER_PIXEL),
        AttributeMask::is_valid(AttributeMask::BIT_GRAVITY),
        AttributeMask::is_valid(AttributeMask::WIN_GRAVITY),
        AttributeMask::is_valid(AttributeMask::BACKING_STORE),
        AttributeMask::is_valid(AttributeMask::BACKING_PLANES),
        AttributeMask::is_valid(AttributeMask::BACKING_PIXEL),
        AttributeMask::is_valid(AttributeMask::OVERRIDE_REDIRECT),
        AttributeMask::is_valid(AttributeMask::SAVE_UNDER),
        AttributeMask::is_valid(AttributeMask::EVENT_MASK),
        AttributeMask::is_valid(AttributeMask::DONT_PROPAGATE),
        AttributeMask::is_valid(AttributeMask::COLORMAP),
        AttributeMask::is_valid(AttributeMask::CURSOR),
{
}

/// The attributes of a window, and which of them were set.
#[derive(Debug)]
pub struct WindowAttributes {
    attributes: XSetWindowAttributes,
    selected_attributes: AttributeMask,
}

impl WindowAttributes {
    /// The attributes, as contracts speak of them.
    pub closed spec fn raw(&self) -> XSetWindowAttributes {
        self.attributes
    }

    /// The flags of the attributes that were set, as contracts speak of
    /// them.
    pub closed spec fn selected(&self) -> u64 {
        self.selected_attributes@
    }

    /// The attributes that were set.
    pub fn selected_attributes(&self) -> (r: AttributeMask)
        ensures
            r@ == self.selected(),
    {
        self.selected_attributes
    }

    /// The attributes as a request carries them.
    pub fn xlib_attributes(&self) -> (r: &XSetWindowAttributes)
        ensures
            *r == self.raw(),
    {
        &self.attributes
    }

    /// Notes that the attribute with the flag `flag` was set.
    fn select(&mut self, flag: u64)
        requires
            AttributeMask::is_valid(flag),
        ensures
            final(self).raw() == old(self).raw(),
            final(self).selected() == old(self).selected() | flag,
    {
        self.selected_attributes = self.selected_attributes.union(
            AttributeMask::from_bits_truncate(flag),
        );
    }
}

impl Default for WindowAttributes {
    /// The attributes that Xlib takes where none is named, with none set.
    fn default() -> (r: Self)
        ensures
            r.raw() == default_attributes(),
            r.selected() == 0,
    {
        Self {
            attributes: XSetWindowAttributes {
                background_pixmap: XLIB_NONE,
                background_pixel: 0,
                border_pixmap: COPY_FROM_PARENT,
                border_pixel: 0,
                bit_gravity: 0,
                win_gravity: 1,
                backing_store: 0,
                backing_planes: u64::MAX,
                backing_pixel: 0,
                save_under: XLIB_FALSE,
                event_mask: 0,
                do_not_propagate_mask: 0,
                override_redirect: XLIB_FALSE,
                colormap: COPY_FROM_PARENT,
                cursor: XLIB_NONE,
            },
            selected_attributes: AttributeMask::empty(),
        }
    }
}

/// Something that has window attributes.
pub trait GetAndSetAttributes: Sized {
    /// The attributes, as contracts speak of them.
    spec fn spec_attributes(&self) -> WindowAttributes;

    /// `self` with `attributes` in place of its own.
    spec fn with_attributes(&self, attributes: WindowAttributes) -> Self;

    fn attributes(&self) -> (r: &WindowAttributes)
        ensures
            *r == self.spec_attributes(),
    ;

    fn attributes_mut(&mut self) -> (r: &mut WindowAttributes)
        ensures
            *r == old(self).spec_attributes(),
            *final(self) == old(self).with_attributes(*final(r)),
            final(self).spec_attributes() == *final(r),
    ;
}

/// Whether a window is kept from the window manager. This attribute stands
/// apart because top level windows never set it.
pub trait AttributeOverrideRedirect: GetAndSetAttributes {
    fn override_redirect(&self) -> (r: OverrideRedirect)
        ensures
            r == OverrideRedirect(self.spec_attributes().raw().override_redirect == XLIB_TRUE),
    {
        OverrideRedirect::from_xlib_attribute(self.attributes().attributes.override_redirect)
    }

    fn set_override_redirect(&mut self, value: OverrideRedirect)
        ensures
            *final(self) == old(self).with_attributes(final(self).spec_attributes()),
            final(self).spec_attributes().raw() == (XSetWindowAttributes {
                override_redirect: if value.0 { XLIB_TRUE } else { XLIB_FALSE },
                ..old(self).spec_attributes().raw()
            }),
            final(self).spec_attributes().selected() == old(self).spec_attributes().selected()
                | AttributeMask::OVERRIDE_REDIRECT,
    {
        proof {
            lemma_attribute_flags_are_valid();
        }
        let attributes = self.attributes_mut();
        attributes.attributes.override_redirect = value.to_xlib_attribute();
        attributes.select(AttributeMask::OVERRIDE_REDIRECT);
    }
}

/// The attributes of every window.
pub trait CommonAttributes: GetAndSetAttributes {
    /// Where the window goes when its parent is resized.
    fn win_gravity(&self) -> (r: WindowGravity)
        ensures
            0 <= self.spec_attributes().raw().win_gravity <= 9 ==> r.code() == self.spec_attributes().raw().win_gravity,
            !(0 <= self.spec_attributes().raw().win_gravity <= 9) ==> r == WindowGravity::NorthWest,
    {
        WindowGravity::from_xlib_attribute(self.attributes().attributes.win_gravity)
    }

    fn set_win_gravity(&mut self, value: WindowGravity)
        ensures
            *final(self) == old(self).with_attributes(final(self).spec_attributes()),
            final(self).spec_attributes().raw() == (XSetWindowAttributes {
                win_gravity: value.code(),
                ..old(self).spec_attributes().raw()
            }),
            final(self).spec_attributes().selected() == old(self).spec_attributes().selected()
                | AttributeMask::WIN_GRAVITY,
    {
        proof {
            lemma_attribute_flags_are_valid();
        }
        let attributes = self.attributes_mut();
        attributes.attributes.win_gravity = value.to_xlib_attribute();
        attributes.select(AttributeMask::WIN_GRAVITY);
    }

    /// The events that the window reports.
    fn event_mask(&self) -> (r: EventMask)
        ensures
            r@ == self.spec_attributes().raw().event_mask & EventMask::ALL,
    {
        EventMask::from_xlib_attribute(self.attributes().attributes.event_mask)
    }

    fn set_event_mask(&mut self, value: EventMask)
        ensures
            *final(self) == old(self).with_attributes(final(self).spec_attributes()),
            final(self).spec_attributes().raw() == (XSetWindowAttributes {
                event_mask: value@,
                ..old(self).spec_attributes().raw()
            }),
            final(self).spec_attributes().selected() == old(self).spec_attributes().selected()
                | AttributeMask::EVENT_MASK,
    {
        proof {
            lemma_attribute_flags_are_valid();
        }
        let attributes = self.attributes_mut();
        attributes.attributes.event_mask = value.to_xlib_attribute();
        attributes.select(AttributeMask::EVENT_MASK);
    }

    /// The events that the window keeps from its ancestors.
    fn do_not_propagate_mask(&self) -> (r: DoNotPropagateMask)
        ensures
            r@ == self.spec_attributes().raw().do_not_propagate_mask & DoNotPropagateMask::ALL,
    {
        DoNotPropagateMask::from_xlib_attribute(self.attributes().attributes.do_not_propagate_mask)
    }

    fn set_do_not_propagate(&mut self, value: DoNotPropagateMask)
        ensures
            *final(self) == old(self).with_attributes(final(self).spec_attributes()),
            final(self).spec_attributes().raw() == (XSetWindowAttributes {
                do_not_propagate_mask: value@,
                ..old(self).spec_attributes().raw()
            }),
            final(self).spec_attributes().selected() == old(self).spec_attributes().selected()
                | AttributeMask::DONT_PROPAGATE,
    {
        proof {
            lemma_attribute_flags_are_valid();
        }
        let attributes = self.attributes_mut();
        attributes.attributes.do_not_propagate_mask = value.to_xlib_attribute();
        attributes.select(AttributeMask::DONT_PROPAGATE);
    }

    /// The cursor shown in the window.
    fn cursor(&self) -> (r: Cursor)
        ensures
            r.code() == self.spec_attributes().raw().cursor,
            r.is_canonical(),
    {
        Cursor::from_xlib_attribute(self.attributes().attributes.cursor)
    }

    fn set_cursor(&mut self, value: Cursor)
        ensures
            *final(self) == old(self).with_attributes(final(self).spec_attributes()),
            final(self).spec_attributes().raw() == (XSetWindowAttributes {
                cursor: value.code(),
                ..old(self).spec_attributes().raw()
            }),
            final(self).spec_attributes().selected() == old(self).spec_attributes().selected()
                | AttributeMask::CURSOR,
    {
        proof {
            lemma_attribute_flags_are_valid();
        }
        let attributes = self.attributes_mut();
        attributes.attributes.cursor = value.to_xlib_attribute();
        attributes.select(AttributeMask::CURSOR);
    }
}

/// The attributes of a window that can be drawn to.
pub trait InputOutputWindowAttributes: GetAndSetAttributes {
    /// The pixmap that the background is tiled with.
    fn background_pixmap(&self) -> (r: BackgroundPixmap)
        ensures
            r.code() == self.spec_attributes().raw().background_pixmap,
            r.is_canonical(),
    {
        BackgroundPixmap::from_xlib_attribute(self.attributes().attributes.background_pixmap)
    }

    fn set_background_pixmap(&mut self, value: BackgroundPixmap)
        ensures
            *final(self) == old(self).with_attributes(final(self).spec_attributes()),
            final(self).spec_attributes().raw() == (XSetWindowAttributes {
                background_pixmap: value.code(),
                ..old(self).spec_attributes().raw()
            }),
            final(self).spec_attributes().selected() == old(self).spec_attributes().selected()
                | AttributeMask::BACK_PIXMAP,
    {
        proof {
            lemma_attribute_flags_are_valid();
        }
        let attributes = self.attributes_mut();
        attributes.attributes.background_pixmap = value.to_xlib_attribute();
        attributes.select(AttributeMask::BACK_PIXMAP);
    }

    /// The pixel that the background is filled with.
    fn background_pixel(&self) -> (r: u64)
        ensures
            r == self.spec_attributes().raw().background_pixel,
    {
        self.attributes().attributes.background_pixel
    }

    fn set_background_pixel(&mut self, value: u64)
        ensures
            *final(self) == old(self).with_attributes(final(self).spec_attributes()),
            final(self).spec_attributes().raw() == (XSetWindowAttributes {
                background_pixel: value,
                ..old(self).spec_attributes().raw()
            }),
            final(self).spec_attributes().selected() == old(self).spec_attributes().selected()
                | AttributeMask::BACK_PIXEL,
    {
        proof {
            lemma_attribute_flags_are_valid();
        }
        let attributes = self.attributes_mut();
        attributes.attributes.background_pixel = value;
        attributes.select(AttributeMask::BACK_PIXEL);
    }

    /// The pixmap that the border is tiled with.
    fn border_pixmap(&self) -> (r: BorderPixmap)
        ensures
            r.code() == self.spec_attributes().raw().border_pixmap,
            r.is_canonical(),
    {
        BorderPixmap::from_xlib_attribute(self.attributes().attributes.border_pixmap)
    }

    fn set_border_pixmap(&mut self, value: BorderPixmap)
        ensures
            *final(self) == old(self).with_attributes(final(self).spec_attributes()),
            final(self).spec_attributes().raw() == (XSetWindowAttributes {
                border_pixmap: value.code(),
                ..old(self).spec_attributes().raw()
            }),
            final(self).spec_attributes().selected() == old(self).spec_attributes().selected()
                | AttributeMask::BORDER_PIXMAP,
    {
        proof {
            lemma_attribute_flags_are_valid();
        }
        let attributes = self.attributes_mut();
        attributes.attributes.border_pixmap = value.to_xlib_attribute();
        attributes.select(AttributeMask::BORDER_PIXMAP);
    }

    /// The pixel that the border is filled with.
    fn border_pixel(&self) -> (r: u64)
        ensures
            r == self.spec_attributes().raw().border_pixel,
    {
        self.attributes().attributes.border_pixel
    }

    fn set_border_pixel(&mut self, value: u64)
        ensures
            *final(self) == old(self).with_attributes(final(self).spec_attributes()),
            final(self).spec_attributes().raw() == (XSetWindowAttributes {
                border_pixel: value,
                ..old(self).spec_attributes().raw()
            }),
            final(self).spec_attributes().selected() == old(self).spec_attributes().selected()
                | AttributeMask::BORDER_PIXEL,
    {
        proof {
            lemma_attribute_flags_are_valid();
        }
        let attributes = self.attributes_mut();
        attributes.attributes.border_pixel = value;
        attributes.select(AttributeMask::BORDER_PIXEL);
    }

    /// What becomes of the contents when the window is resized.
    fn bit_gravity(&self) -> (r: Gravity)
        ensures
            r == if self.spec_attributes().raw().bit_gravity == Gravity::Static.code() { Gravity::Static } else { Gravity::Forget },
    {
        Gravity::from_xlib_attribute(self.attributes().attributes.bit_gravity)
    }

    fn set_bit_gravity(&mut self, value: Gravity)
        ensures
            *final(self) == old(self).with_attributes(final(self).spec_attributes()),
            final(self).spec_attributes().raw() == (XSetWindowAttributes {
                bit_gravity: value.code(),
                ..old(self).spec_attributes().raw()
            }),
            final(self).spec_attributes().selected() == old(self).spec_attributes().selected()
                | AttributeMask::BIT_GRAVITY,
    {
        proof {
            lemma_attribute_flags_are_valid();
        }
        let attributes = self.attributes_mut();
        attributes.attributes.bit_gravity = value.to_xlib_attribute();
        attributes.select(AttributeMask::BIT_GRAVITY);
    }

    /// When the server should keep the contents of the window.
    fn backing_store(&self) -> (r: BackingStore)
        ensures
            0 <= self.spec_attributes().raw().backing_store <= 2 ==> r.code() == self.spec_attributes().raw().backing_store,
            !(0 <= self.spec_attributes().raw().backing_store <= 2) ==> r == BackingStore::NotUseful,
    {
        BackingStore::from_xlib_attribute(self.attributes().attributes.backing_store)
    }

    fn set_backing_store(&mut self, value: BackingStore)
        ensures
            *final(self) == old(self).with_attributes(final(self).spec_attributes()),
            final(self).spec_attributes().raw() == (XSetWindowAttributes {
                backing_store: value.code(),
                ..old(self).spec_attributes().raw()
            }),
            final(self).spec_attributes().selected() == old(self).spec_attributes().selected()
                | AttributeMask::BACKING_STORE,
    {
        proof {
            lemma_attribute_flags_are_valid();
        }
        let attributes = self.attributes_mut();
        attributes.attributes.backing_store = value.to_xlib_attribute();
        attributes.select(AttributeMask::BACKING_STORE);
    }

    /// The planes that are worth keeping.
    fn backing_planes(&self) -> (r: u64)
        ensures
            r == self.spec_attributes().raw().backing_planes,
    {
        self.attributes().attributes.backing_planes
    }

    fn set_backing_planes(&mut self, value: u64)
        ensures
            *final(self) == old(self).with_attributes(final(self).spec_attributes()),
            final(self).spec_attributes().raw() == (XSetWindowAttributes {
                backing_planes: value,
                ..old(self).spec_attributes().raw()
            }),
            final(self).spec_attributes().selected() == old(self).spec_attributes().selected()
                | AttributeMask::BACKING_PLANES,
    {
        proof {
            lemma_attribute_flags_are_valid();
        }
        let attributes = self.attributes_mut();
        attributes.attributes.backing_planes = value;
        attributes.select(AttributeMask::BACKING_PLANES);
    }

    /// The pixel for the planes that are not kept.
    fn backing_pixel(&self) -> (r: u64)
        ensures
            r == self.spec_attributes().raw().backing_pixel,
    {
        self.attributes().attributes.backing_pixel
    }

    fn set_backing_pixel(&mut self, value: u64)
        ensures
            *final(self) == old(self).with_attributes(final(self).spec_attributes()),
            final(self).spec_attributes().raw() == (XSetWindowAttributes {
                backing_pixel: value,
                ..old(self).spec_attributes().raw()
            }),
            final(self).spec_attributes().selected() == old(self).spec_attributes().selected()
                | AttributeMask::BACKING_PIXEL,
    {
        proof {
            lemma_attribute_flags_are_valid();
        }
        let attributes = self.attributes_mut();
        attributes.attributes.backing_pixel = value;
        attributes.select(AttributeMask::BACKING_PIXEL);
    }

    /// Whether the server should keep what the window covers.
    fn save_under(&self) -> (r: SaveUnder)
        ensures
            r == SaveUnder(self.spec_attributes().raw().save_under == XLIB_TRUE),
    {
        SaveUnder::from_xlib_attribute(self.attributes().attributes.save_under)
    }

    fn set_save_under(&mut self, value: SaveUnder)
        ensures
            *final(self) == old(self).with_attributes(final(self).spec_attributes()),
            final(self).spec_attributes().raw() == (XSetWindowAttributes {
                save_under: if value.0 { XLIB_TRUE } else { XLIB_FALSE },
                ..old(self).spec_attributes().raw()
            }),
            final(self).spec_attributes().selected() == old(self).spec_attributes().selected()
                | AttributeMask::SAVE_UNDER,
    {
        proof {
            lemma_attribute_flags_are_valid();
        }
        let attributes = self.attributes_mut();
        attributes.attributes.save_under = value.to_xlib_attribute();
        attributes.select(AttributeMask::SAVE_UNDER);
    }

    /// The colormap of the window.
    fn colormap(&self) -> (r: Colormap)
        ensures
            r.code() == self.spec_attributes().raw().colormap,
            r.is_canonical(),
    {
        Colormap::from_xlib_attribute(self.attributes().attributes.colormap)
    }

    fn set_colormap(&mut self, value: Colormap)
        ensures
            *final(self) == old(self).with_attributes(final(self).spec_attributes()),
            final(self).spec_attributes().raw() == (XSetWindowAttributes {
                colormap: value.code(),
                ..old(self).spec_attributes().raw()
            }),
            final(self).spec_attributes().selected() == old(self).spec_attributes().selected()
                | AttributeMask::COLORMAP,
    {
        proof {
            lemma_attribute_flags_are_valid();
        }
        let attributes = self.attributes_mut();
        attributes.attributes.colormap = value.to_xlib_attribute();
        attributes.select(AttributeMask::COLORMAP);
    }
}

} // verus!
