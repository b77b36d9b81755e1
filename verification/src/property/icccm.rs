//! Inter-Client Communication Conventions Manual 2.0 properties.

use crate::bits::lemma_flags_i64;
use crate::utils::{to_xlib_bool, xlib_bool, Atom};
use crate::window::input_output::TopLevelInputOutputWindow;
use crate::window::{
    ChangePropertyMode, ChangePropertyRequest, Property, PropertyChange, PropertyData, Window,
    WindowProperties,
};
use vstd::prelude::*;

verus! {

/// The predefined atom `STRING`.
pub const XA_STRING: u64 = 31;

/// The predefined atom `WM_COMMAND`.
pub const XA_WM_COMMAND: u64 = 34;

/// The predefined atom `WM_CLIENT_MACHINE`.
pub const XA_WM_CLIENT_MACHINE: u64 = 36;

/// The predefined atom `WM_ICON_NAME`.
pub const XA_WM_ICON_NAME: u64 = 37;

/// The predefined atom `WM_ICON_SIZE`.
pub const XA_WM_ICON_SIZE: u64 = 38;

/// The predefined atom `WM_NAME`.
pub const XA_WM_NAME: u64 = 39;

/// The predefined atom `WM_CLASS`.
pub const XA_WM_CLASS: u64 = 67;

/// The text properties of a top level window.
#[derive(Debug, Copy, Clone, PartialEq, Eq, Structural)]
pub enum TextProperty {
    /// `WM_NAME`
    Name,
    /// `WM_ICON_NAME`
    IconName,
    /// `WM_COMMAND`
    Command,
    /// `WM_CLIENT_MACHINE`
    ClientMachine,
}

impl TextProperty {
    /// The identifier of the atom that names the property.
    pub open spec fn atom_id(self) -> u64 {
        match self {
            TextProperty::ClientMachine => XA_WM_CLIENT_MACHINE,
            TextProperty::IconName => XA_WM_ICON_NAME,
            TextProperty::Command => XA_WM_COMMAND,
            TextProperty::Name => XA_WM_NAME,
        }
    }
}

impl vstd::std_specs::convert::FromSpecImpl<TextProperty> for Atom {
    open spec fn obeys_from_spec() -> bool {
        true
    }

    open spec fn from_spec(property: TextProperty) -> Self {
        Atom::of_id(property.atom_id())
    }
}

impl From<TextProperty> for Atom {
    fn from(property: TextProperty) -> (r: Self) {
        match property {
            TextProperty::ClientMachine => Atom::from_raw(XA_WM_CLIENT_MACHINE),
            TextProperty::IconName => Atom::from_raw(XA_WM_ICON_NAME),
            TextProperty::Command => Atom::from_raw(XA_WM_COMMAND),
            TextProperty::Name => Atom::from_raw(XA_WM_NAME),
        }
    }
}

/// Why the class of a window could not be set. The window comes back
/// with the error.
#[derive(Debug)]
pub enum SetClassPropertyError<T> {
    UnknownCharacter(T),
    /// The names are longer than a request can count.
    ChangePropertyError(T),
}

/// Whether `c` is one of `[a-zA-Z0-9 _-]`.
pub open spec fn is_class_char(c: char) -> bool {
    ||| 'a' <= c <= 'z'
    ||| 'A' <= c <= 'Z'
    ||| '0' <= c <= '9'
    ||| c == ' '
    ||| c == '-'
    ||| c == '_'
}

/// Whether every character of `s` is one of `[a-zA-Z0-9 _-]`.
pub open spec fn is_class_text(s: Seq<char>) -> bool {
    forall|i: int| 0 <= i < s.len() ==> is_class_char(#[trigger] s[i])
}

/// `text` in ASCII, with a null byte after it.
pub open spec fn c_string(text: Seq<char>) -> Seq<u8> {
    Seq::new(text.len(), |i: int| text[i] as u8).push(0u8)
}

/// The value of the property `WM_CLASS`: the name of the instance and the
/// name of the class, each with a null byte after it.
pub open spec fn class_data(instance_name: Seq<char>, class_name: Seq<char>) -> Seq<u8> {
    c_string(instance_name) + c_string(class_name)
}

fn check_class_char(c: char) -> (r: bool)
    ensures
        r == is_class_char(c),
{
    ('a' <= c && c <= 'z') || ('A' <= c && c <= 'Z') || ('0' <= c && c <= '9') || c == ' ' || c
        == '-' || c == '_'
}

/// Whether `text` holds nothing but `[a-zA-Z0-9 _-]`.
pub fn check_string(text: &str) -> (r: Result<(), ()>)
    ensures
        r is Ok <==> is_class_text(text@),
{
    let len = text.unicode_len();
    let mut i: usize = 0;
    while i < len
        invariant
            len == text@.len(),
            i <= len,
            forall|j: int| 0 <= j < i ==> is_class_char(#[trigger] text@[j]),
        decreases len - i,
    {
        if !check_class_char(text.get_char(i)) {
            return Err(());
        }
        i += 1;
    }
    Ok(())
}

/// Appends `text` in ASCII to `data`, and a null byte after it.
fn push_c_string(data: &mut Vec<u8>, text: &str)
    requires
        is_class_text(text@),
    ensures
        final(data)@ == old(data)@ + c_string(text@),
{
    proof {
        assert(vstd::string::is_ascii(text)) by {
            assert forall|i: int| 0 <= i < text@.len() implies '\0' <= #[trigger] text@[i]
                <= '\u{7f}' by {
                assert(is_class_char(text@[i]));
            }
        }
        vstd::string::is_ascii_spec_bytes(text);
    }
    let bytes = text.as_bytes();
    let mut i: usize = 0;
    while i < bytes.len()
        invariant
            i <= bytes@.len(),
            bytes@ == Seq::new(text@.len(), |k: int| text@[k] as u8),
            data@ == old(data)@ + bytes@.subrange(0, i as int),
        decreases bytes@.len() - i,
    {
        data.push(bytes[i]);
        i += 1;
        assert(data@ =~= old(data)@ + bytes@.subrange(0, i as int));
    }
    data.push(0);
    assert(data@ =~= old(data)@ + c_string(text@));
}

impl TopLevelInputOutputWindow {
    /// Starts setting the property `WM_HINTS`.
    ///
    /// `allocated` says whether Xlib had the memory for its hints
    /// structure; without it the window comes back as an error.
    pub fn start_configuring_hints(self, allocated: bool) -> (r: Result<HintsConfigurator, Self>)
        ensures
            r is Ok <==> allocated,
            r is Ok ==> r->Ok_0.target() == self && r->Ok_0.flags() == 0 && r->Ok_0.hints()
                == XWMHints::spec_zeroed(),
            r is Err ==> r->Err_0 == self,
    {
        HintsConfigurator::new(self, allocated)
    }

    /// Starts setting the property `WM_NORMAL_HINTS`.
    ///
    /// `allocated` says whether Xlib had the memory for its hints
    /// structure; without it the window comes back as an error.
    pub fn start_configuring_normal_hints(self, allocated: bool) -> (r: Result<
        NormalHintsConfigurator,
        Self,
    >)
        ensures
            r is Ok <==> allocated,
            r is Ok ==> r->Ok_0.target() == self && r->Ok_0.hints() == XSizeHints::spec_zeroed(),
            r is Err ==> r->Err_0 == self,
    {
        NormalHintsConfigurator::new(self, allocated)
    }

    /// Hands the window back once the property `WM_PROTOCOLS` was set:
    /// as `Ok` if the request went through, as `Err` if its status is
    /// zero.
    pub fn set_protocols(self, status: i32) -> (r: Result<Self, Self>)
        ensures
            r is Ok <==> status != 0,
            r is Ok ==> r->Ok_0 == self,
            r is Err ==> r->Err_0 == self,
    {
        if status == 0 {
            Err(self)
        } else {
            Ok(self)
        }
    }

    /// Makes the request that sets the property `WM_CLASS`.
    ///
    /// Allowed characters: `[a-zA-Z0-9 _-]`. The property is a `STRING` of
    /// bytes: the name of the instance and the name of the class, each
    /// with a null byte after it; it replaces what the property held.
    pub fn set_class(self, instance_name: String, class_name: String) -> (r: Result<
        (Self, PropertyChange),
        SetClassPropertyError<Self>,
    >)
        ensures
            !(is_class_text(instance_name@) && is_class_text(class_name@)) ==> r == Err::<
                (Self, PropertyChange),
                SetClassPropertyError<Self>,
            >(SetClassPropertyError::UnknownCharacter(self)),
            is_class_text(instance_name@) && is_class_text(class_name@) ==> {
                let data = class_data(instance_name@, class_name@);
                if data.len() <= i32::MAX {
                    &&& r matches Ok((window, change))
                    &&& window == self
                    &&& change.property matches Property::Char(property_data)
                    &&& property_data.items() == data
                    &&& property_data.type_atom()@ == XA_STRING
                    &&& change.request == (ChangePropertyRequest {
                        window: self.id(),
                        property: XA_WM_CLASS,
                        property_type: XA_STRING,
                        format: 8,
                        mode: ChangePropertyMode::Replace.code(),
                        nelements: data.len() as i32,
                    })
                } else {
                    r == Err::<(Self, PropertyChange), SetClassPropertyError<Self>>(
                        SetClassPropertyError::ChangePropertyError(self),
                    )
                }
            },
    {
        if check_string(instance_name.as_str()).is_err() || check_string(
            class_name.as_str(),
        ).is_err() {
            return Err(SetClassPropertyError::UnknownCharacter(self));
        }
        let mut property_data = PropertyData::<u8>::new(Atom::from_raw(XA_STRING));
        {
            let data = property_data.data_mut();
            push_c_string(data, instance_name.as_str());
            push_c_string(data, class_name.as_str());
        }
        assert(property_data.items() =~= class_data(instance_name@, class_name@));
        let property = Property::Char(property_data);
        match self.change_property(Atom::from_raw(XA_WM_CLASS), property, ChangePropertyMode::Replace) {
            Ok(change) => Ok((self, change)),
            Err(()) => Err(SetClassPropertyError::ChangePropertyError(self)),
        }
    }

    /// Makes the request that sets the property `WM_ICON_SIZE`.
    ///
    /// The property is a `WM_ICON_SIZE` of six long integers, in the order
    /// of the arguments; it replaces what the property held.
    pub fn set_icon_size(
        &self,
        min_width: i32,
        min_height: i32,
        max_width: i32,
        max_height: i32,
        width_inc: i32,
        height_inc: i32,
    ) -> (r: PropertyChange)
        ensures
            r.property matches Property::Long(property_data) && property_data.items() == seq![
                min_width as u32,
                min_height as u32,
                max_width as u32,
                max_height as u32,
                width_inc as u32,
                height_inc as u32,
            ] && property_data.type_atom()@ == XA_WM_ICON_SIZE,
            r.request == (ChangePropertyRequest {
                window: self.id(),
                property: XA_WM_ICON_SIZE,
                property_type: XA_WM_ICON_SIZE,
                format: 32,
                mode: ChangePropertyMode::Replace.code(),
                nelements: 6,
            }),
    {
        let mut property_data = PropertyData::<u32>::new(Atom::from_raw(XA_WM_ICON_SIZE));
        {
            let data = property_data.data_mut();
            data.push(#[verifier::truncate] (min_width as u32));
            data.push(#[verifier::truncate] (min_height as u32));
            data.push(#[verifier::truncate] (max_width as u32));
            data.push(#[verifier::truncate] (max_height as u32));
            data.push(#[verifier::truncate] (width_inc as u32));
            data.push(#[verifier::truncate] (height_inc as u32));
        }
        assert(property_data.items() =~= seq![
            min_width as u32,
            min_height as u32,
            max_width as u32,
            max_height as u32,
            width_inc as u32,
            height_inc as u32,
        ]);
        let property = Property::Long(property_data);
        match self.change_property(
            Atom::from_raw(XA_WM_ICON_SIZE),
            property,
            ChangePropertyMode::Replace,
        ) {
            Ok(change) => change,
            Err(()) => vstd::pervasive::unreached(),
        }
    }
}

/// The hints of a window to the window manager, as a request carries them.
#[derive(Debug, Clone, Copy, PartialEq, Eq, Structural)]
pub struct XWMHints {
    /// The members that count.
    pub flags: i64,
    pub input: i32,
    pub initial_state: i32,
    pub icon_pixmap: u64,
    pub icon_window: u64,
    pub icon_x: i32,
    pub icon_y: i32,
    pub icon_mask: u64,
    pub window_group: u64,
}

impl XWMHints {
    /// The hints that are zero throughout.
    pub open spec fn spec_zeroed() -> XWMHints {
        XWMHints {
            flags: 0,
            input: 0,
            initial_state: 0,
            icon_pixmap: 0,
            icon_window: 0,
            icon_x: 0,
            icon_y: 0,
            icon_mask: 0,
            window_group: 0,
        }
    }
}

/// The members of `XWMHints` that a request names.
#[derive(Debug, Clone, Copy)]
pub struct WindowHintsFlags {
    bits: i64,
}

impl View for WindowHintsFlags {
    type V = i64;

    closed spec fn view(&self) -> i64 {
        self.bits
    }
}

impl WindowHintsFlags {
    pub const INPUT: i64 = 0x001;

    pub const STATE: i64 = 0x002;

    pub const ICON_PIXMAP: i64 = 0x004;

    pub const ICON_WINDOW: i64 = 0x008;

    pub const ICON_POSITION: i64 = 0x010;

    pub const ICON_MASK: i64 = 0x020;

    pub const WINDOW_GROUP: i64 = 0x040;

    pub const URGENCY: i64 = 0x100;

    /// Every flag at once.
    pub const ALL: i64 = 0x17f;

    /// Whether `bits` holds no bit but those of the flags.
    pub open spec fn is_valid(bits: i64) -> bool {
        bits & !Self::ALL == 0
    }

    #[verifier::type_invariant]
    spec fn well_formed(&self) -> bool {
        Self::is_valid(self.bits)
    }

    /// The mask without any flag.
    pub fn empty() -> (r: Self)
        ensures
            r@ == 0,
    {
        proof {
            lemma_flags_i64(0, 0, Self::ALL);
        }
        WindowHintsFlags { bits: 0 }
    }

    /// The flags as an integer, which holds no bit but those of the flags.
    pub fn bits(&self) -> (r: i64)
        ensures
            r == self@,
            Self::is_valid(r),
    {
        proof {
            use_type_invariant(self);
        }
        self.bits
    }

    /// The flags of `self` together with those of the bits `flags` that
    /// are flags.
    pub fn with(self, flags: i64) -> (r: Self)
        ensures
            r@ == self@ | (flags & Self::ALL),
            Self::is_valid(flags) ==> r@ == self@ | flags,
    {
        proof {
            use_type_invariant(&self);
            lemma_flags_i64(flags, 0, Self::ALL);
            lemma_flags_i64(self.bits, flags & Self::ALL, Self::ALL);
        }
        WindowHintsFlags { bits: self.bits | (flags & Self::ALL) }
    }

    /// The flags of `self` without the bits `flags`.
    pub fn without(self, flags: i64) -> (r: Self)
        ensures
            r@ == self@ & !flags,
    {
        proof {
            use_type_invariant(&self);
            lemma_flags_i64(self.bits, flags, Self::ALL);
        }
        WindowHintsFlags { bits: self.bits & !flags }
    }
}

/// Every flag of `WindowHintsFlags` is valid by itself.
pub proof fn lemma_hints_flags_are_valid()
    by (bit_vector)
    ensures
        WindowHintsFlags::is_valid(WindowHintsFlags::INPUT),
        WindowHintsFlags::is_valid(WindowHintsFlags::STATE),
        WindowHintsFlags::is_valid(WindowHintsFlags::ICON_PIXMAP),
        WindowHintsFlags::is_valid(WindowHintsFlags::ICON_WINDOW),
        WindowHintsFlags::is_valid(WindowHintsFlags::ICON_POSITION),
        WindowHintsFlags::is_valid(WindowHintsFlags::ICON_MASK),
        WindowHintsFlags::is_valid(WindowHintsFlags::WINDOW_GROUP),
        WindowHintsFlags::is_valid(WindowHintsFlags::URGENCY),
{
}

/// The state that a window starts in.
#[derive(Debug, Clone, Copy, PartialEq, Eq, Structural)]
pub enum WindowState {
    Withdrawn,
    Normal,
    Iconic,
}

impl WindowState {
    /// The number of the state in the protocol.
    pub open spec fn code(self) -> i32 {
        match self {
            WindowState::Withdrawn => 0,
            WindowState::Normal => 1,
            WindowState::Iconic => 2,
        }
    }

    pub fn to_xlib_state(self) -> (r: i32)
        ensures
            r == self.code(),
    {
        match self {
            WindowState::Withdrawn => 0,
            WindowState::Normal => 1,
            WindowState::Iconic => 2,
        }
    }
}

/// Sets the property `WM_HINTS` of a top level window.
#[derive(Debug)]
pub struct HintsConfigurator {
    window: TopLevelInputOutputWindow,
    hints: XWMHints,
    window_hints_flags: WindowHintsFlags,
}

impl HintsConfigurator {
    /// The window whose hints are set.
    pub closed spec fn target(&self) -> TopLevelInputOutputWindow {
        self.window
    }

    /// The hints so far. Their member `flags` is set at the end only.
    pub closed spec fn hints(&self) -> XWMHints {
        self.hints
    }

    /// The flags of the hints that were set.
    pub closed spec fn flags(&self) -> i64 {
        self.window_hints_flags@
    }

    /// Starts with hints that are zero throughout, and none of them set.
    ///
    /// `allocated` says whether Xlib had the memory for its hints
    /// structure; without it the window comes back as an error.
    pub fn new(window: TopLevelInputOutputWindow, allocated: bool) -> (r: Result<
        Self,
        TopLevelInputOutputWindow,
    >)
        ensures
            r is Ok <==> allocated,
            r is Ok ==> r->Ok_0.target() == window && r->Ok_0.flags() == 0 && r->Ok_0.hints()
                == XWMHints::spec_zeroed(),
            r is Err ==> r->Err_0 == window,
    {
        if !allocated {
            return Err(window);
        }
        let hints = XWMHints {
            flags: 0,
            input: 0,
            initial_state: 0,
            icon_pixmap: 0,
            icon_window: 0,
            icon_x: 0,
            icon_y: 0,
            icon_mask: 0,
            window_group: 0,
        };
        Ok(Self { window, hints, window_hints_flags: WindowHintsFlags::empty() })
    }

    pub fn set_input(self, value: bool) -> (r: Self)
        ensures
            r.target() == self.target(),
            r.hints() == (XWMHints { input: xlib_bool(value), ..self.hints() }),
            r.flags() == self.flags() | WindowHintsFlags::INPUT,
    {
        proof {
            lemma_hints_flags_are_valid();
        }
        let mut r = self;
        r.hints.input = to_xlib_bool(value);
        r.window_hints_flags = r.window_hints_flags.with(WindowHintsFlags::INPUT);
        r
    }

    pub fn set_initial_state(self, value: WindowState) -> (r: Self)
        ensures
            r.target() == self.target(),
            r.hints() == (XWMHints { initial_state: value.code(), ..self.hints() }),
            r.flags() == self.flags() | WindowHintsFlags::STATE,
    {
        proof {
            lemma_hints_flags_are_valid();
        }
        let mut r = self;
        r.hints.initial_state = value.to_xlib_state();
        r.window_hints_flags = r.window_hints_flags.with(WindowHintsFlags::STATE);
        r
    }

    pub fn set_icon_pixmap(self, pixmap_id: u64) -> (r: Self)
        ensures
            r.target() == self.target(),
            r.hints() == (XWMHints { icon_pixmap: pixmap_id, ..self.hints() }),
            r.flags() == self.flags() | WindowHintsFlags::ICON_PIXMAP,
    {
        proof {
            lemma_hints_flags_are_valid();
        }
        let mut r = self;
        r.hints.icon_pixmap = pixmap_id;
        r.window_hints_flags = r.window_hints_flags.with(WindowHintsFlags::ICON_PIXMAP);
        r
    }

    pub fn set_icon_window(self, window_id: u64) -> (r: Self)
        ensures
            r.target() == self.target(),
            r.hints() == (XWMHints { icon_window: window_id, ..self.hints() }),
            r.flags() == self.flags() | WindowHintsFlags::ICON_WINDOW,
    {
        proof {
            lemma_hints_flags_are_valid();
        }
        let mut r = self;
        r.hints.icon_window = window_id;
        r.window_hints_flags = r.window_hints_flags.with(WindowHintsFlags::ICON_WINDOW);
        r
    }

    pub fn set_icon_position(self, x: i32, y: i32) -> (r: Self)
        ensures
            r.target() == self.target(),
            r.hints() == (XWMHints { icon_x: x, icon_y: y, ..self.hints() }),
            r.flags() == self.flags() | WindowHintsFlags::ICON_POSITION,
    {
        proof {
            lemma_hints_flags_are_valid();
        }
        let mut r = self;
        r.hints.icon_x = x;
        r.hints.icon_y = y;
        r.window_hints_flags = r.window_hints_flags.with(WindowHintsFlags::ICON_POSITION);
        r
    }

    pub fn set_icon_mask(self, pixmap_id: u64) -> (r: Self)
        ensures
            r.target() == self.target(),
            r.hints() == (XWMHints { icon_mask: pixmap_id, ..self.hints() }),
            r.flags() == self.flags() | WindowHintsFlags::ICON_MASK,
    {
        proof {
            lemma_hints_flags_are_valid();
        }
        let mut r = self;
        r.hints.icon_mask = pixmap_id;
        r.window_hints_flags = r.window_hints_flags.with(WindowHintsFlags::ICON_MASK);
        r
    }

    pub fn set_window_group(self, window_group_id: u64) -> (r: Self)
        ensures
            r.target() == self.target(),
            r.hints() == (XWMHints { window_group: window_group_id, ..self.hints() }),
            r.flags() == self.flags() | WindowHintsFlags::WINDOW_GROUP,
    {
        proof {
            lemma_hints_flags_are_valid();
        }
        let mut r = self;
        r.hints.window_group = window_group_id;
        r.window_hints_flags = r.window_hints_flags.with(WindowHintsFlags::WINDOW_GROUP);
        r
    }

    /// Sets or clears the urgency flag, to which no member belongs.
    pub fn set_urgency(self, value: bool) -> (r: Self)
        ensures
            r.target() == self.target(),
            r.hints() == self.hints(),
            r.flags() == if value {
                self.flags() | WindowHintsFlags::URGENCY
            } else {
                self.flags() & !WindowHintsFlags::URGENCY
            },
    {
        proof {
            lemma_hints_flags_are_valid();
        }
        let mut r = self;
        if value {
            r.window_hints_flags = r.window_hints_flags.with(WindowHintsFlags::URGENCY);
        } else {
            r.window_hints_flags = r.window_hints_flags.without(WindowHintsFlags::URGENCY);
        }
        r
    }

    /// Ends the configuration: hands back the window, and the hints to
    /// set on it, which name the members that were set.
    pub fn end(self) -> (r: (TopLevelInputOutputWindow, XWMHints))
        ensures
            r.0 == self.target(),
            r.1 == (XWMHints { flags: self.flags(), ..self.hints() }),
            WindowHintsFlags::is_valid(r.1.flags),
    {
        let mut hints = self.hints;
        hints.flags = self.window_hints_flags.bits();
        (self.window, hints)
    }
}

/// The aspect ratio `x / y`.
#[derive(Debug, Clone, Copy, PartialEq, Eq, Structural)]
pub struct AspectRatio {
    pub x: i32,
    pub y: i32,
}

/// The hints on the size of a window, as a request carries them.
#[derive(Debug, Clone, Copy, PartialEq, Eq, Structural)]
pub struct XSizeHints {
    /// The members that count.
    pub flags: i64,
    pub min_width: i32,
    pub min_height: i32,
    pub max_width: i32,
    pub max_height: i32,
    pub width_inc: i32,
    pub height_inc: i32,
    pub min_aspect: AspectRatio,
    pub max_aspect: AspectRatio,
    pub base_width: i32,
    pub base_height: i32,
    pub win_gravity: i32,
}

impl XSizeHints {
    /// The hints that are zero throughout.
    pub open spec fn spec_zeroed() -> XSizeHints {
        XSizeHints {
            flags: 0,
            min_width: 0,
            min_height: 0,
            max_width: 0,
            max_height: 0,
            width_inc: 0,
            height_inc: 0,
            min_aspect: AspectRatio { x: 0, y: 0 },
            max_aspect: AspectRatio { x: 0, y: 0 },
            base_width: 0,
            base_height: 0,
            win_gravity: 0,
        }
    }
}

/// Xlib's `PMinSize`.
pub const P_MIN_SIZE: i64 = 0x0010;

/// Xlib's `PMaxSize`.
pub const P_MAX_SIZE: i64 = 0x0020;

/// Xlib's `PResizeInc`.
pub const P_RESIZE_INC: i64 = 0x0040;

/// Xlib's `PAspect`.
pub const P_ASPECT: i64 = 0x0080;

/// Xlib's `PBaseSize`.
pub const P_BASE_SIZE: i64 = 0x0100;

/// Xlib's `PWinGravity`.
pub const P_WIN_GRAVITY: i64 = 0x0200;

/// Sets the property `WM_NORMAL_HINTS` of a top level window.
#[derive(Debug)]
pub struct NormalHintsConfigurator {
    window: TopLevelInputOutputWindow,
    size_hints: XSizeHints,
}

impl NormalHintsConfigurator {
    /// The window whose hints are set.
    pub closed spec fn target(&self) -> TopLevelInputOutputWindow {
        self.window
    }

    /// The hints so far.
    pub closed spec fn hints(&self) -> XSizeHints {
        self.size_hints
    }

    /// Starts with hints that are zero throughout.
    ///
    /// `allocated` says whether Xlib had the memory for its hints
    /// structure; without it the window comes back as an error.
    pub fn new(window: TopLevelInputOutputWindow, allocated: bool) -> (r: Result<
        Self,
        TopLevelInputOutputWindow,
    >)
        ensures
            r is Ok <==> allocated,
            r is Ok ==> r->Ok_0.target() == window && r->Ok_0.hints() == XSizeHints::spec_zeroed(),
            r is Err ==> r->Err_0 == window,
    {
        if !allocated {
            return Err(window);
        }
        let size_hints = XSizeHints {
            flags: 0,
            min_width: 0,
            min_height: 0,
            max_width: 0,
            max_height: 0,
            width_inc: 0,
            height_inc: 0,
            min_aspect: AspectRatio { x: 0, y: 0 },
            max_aspect: AspectRatio { x: 0, y: 0 },
            base_width: 0,
            base_height: 0,
            win_gravity: 0,
        };
        Ok(Self { window, size_hints })
    }

    pub fn set_max_window_size(self, width: i32, height: i32) -> (r: Self)
        ensures
            r.target() == self.target(),
            r.hints() == (XSizeHints {
                flags: self.hints().flags | P_MAX_SIZE,
                max_width: width,
                max_height: height,
                ..self.hints()
            }),
    {
        let mut r = self;
        r.size_hints.flags = r.size_hints.flags | P_MAX_SIZE;
        r.size_hints.max_width = width;
        r.size_hints.max_height = height;
        r
    }

    pub fn set_min_window_size(self, width: i32, height: i32) -> (r: Self)
        ensures
            r.target() == self.target(),
            r.hints() == (XSizeHints {
                flags: self.hints().flags | P_MIN_SIZE,
                min_width: width,
                min_height: height,
                ..self.hints()
            }),
    {
        let mut r = self;
        r.size_hints.flags = r.size_hints.flags | P_MIN_SIZE;
        r.size_hints.min_width = width;
        r.size_hints.min_height = height;
        r
    }

    pub fn set_resize_increments(self, width: i32, height: i32) -> (r: Self)
        ensures
            r.target() == self.target(),
            r.hints() == (XSizeHints {
                flags: self.hints().flags | P_RESIZE_INC,
                width_inc: width,
                height_inc: height,
                ..self.hints()
            }),
    {
        let mut r = self;
        r.size_hints.flags = r.size_hints.flags | P_RESIZE_INC;
        r.size_hints.width_inc = width;
        r.size_hints.height_inc = height;
        r
    }

    pub fn set_min_and_max_aspect_ratios(
        self,
        min_numerator: i32,
        min_denominator: i32,
        max_numerator: i32,
        max_denominator: i32,
    ) -> (r: Self)
        ensures
            r.target() == self.target(),
            r.hints() == (XSizeHints {
                flags: self.hints().flags | P_ASPECT,
                min_aspect: AspectRatio { x: min_numerator, y: min_denominator },
                max_aspect: AspectRatio { x: max_numerator, y: max_denominator },
                ..self.hints()
            }),
    {
        let mut r = self;
        r.size_hints.flags = r.size_hints.flags | P_ASPECT;
        r.size_hints.min_aspect = AspectRatio { x: min_numerator, y: min_denominator };
        r.size_hints.max_aspect = AspectRatio { x: max_numerator, y: max_denominator };
        r
    }

    pub fn set_base_size(self, width: i32, height: i32) -> (r: Self)
        ensures
            r.target() == self.target(),
            r.hints() == (XSizeHints {
                flags: self.hints().flags | P_BASE_SIZE,
                base_width: width,
                base_height: height,
                ..self.hints()
            }),
    {
        let mut r = self;
        r.size_hints.flags = r.size_hints.flags | P_BASE_SIZE;
        r.size_hints.base_width = width;
        r.size_hints.base_height = height;
        r
    }

    pub fn set_win_gravity(self, win_gravity: i32) -> (r: Self)
        ensures
            r.target() == self.target(),
            r.hints() == (XSizeHints {
                flags: self.hints().flags | P_WIN_GRAVITY,
                win_gravity,
                ..self.hints()
            }),
    {
        let mut r = self;
        r.size_hints.flags = r.size_hints.flags | P_WIN_GRAVITY;
        r.size_hints.win_gravity = win_gravity;
        r
    }

    /// Ends the configuration: hands back the window, and the hints to
    /// set on it.
    pub fn end(self) -> (r: (TopLevelInputOutputWindow, XSizeHints))
        ensures
            r.0 == self.target(),
            r.1 == self.hints(),
    {
        (self.window, self.size_hints)
    }
}

} // verus!
