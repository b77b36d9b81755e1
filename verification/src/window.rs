//! Windows, their properties and their reconfiguration.

pub mod attribute;
pub mod builder;
pub mod input_output;

use crate::bits::lemma_flags_u32;
use crate::screen::Screen;
use crate::utils::{to_xlib_bool, xlib_bool, Atom, AtomList, TextError, ATOM_LIST_MAX, XLIB_NONE};
use crate::window::input_output::TopLevelInputOutputWindow;
use vstd::prelude::*;
use vstd::slice::slice_to_vec;

verus! {

/// A non root window.
pub trait Window {
    /// The identifier of the window, as contracts speak of it.
    spec fn id(&self) -> u64;

    fn window_id(&self) -> (r: u64)
        ensures
            r == self.id(),
    ;
}

/// The width of the items of a property.
#[derive(Debug, Clone, Copy, PartialEq, Eq, Structural)]
pub enum PropertyDataFormat {
    /// 8 bits
    Char,
    /// 16 bits
    Short,
    /// 32 bits
    Long,
}

impl PropertyDataFormat {
    /// The width in bits.
    pub open spec fn bits(self) -> i32 {
        match self {
            PropertyDataFormat::Char => 8,
            PropertyDataFormat::Short => 16,
            PropertyDataFormat::Long => 32,
        }
    }

    /// The format of that width, if there is one.
    pub open spec fn of_bits(format: i32) -> Option<PropertyDataFormat> {
        if format == 8 {
            Some(PropertyDataFormat::Char)
        } else if format == 16 {
            Some(PropertyDataFormat::Short)
        } else if format == 32 {
            Some(PropertyDataFormat::Long)
        } else {
            None
        }
    }

    /// Reads the format number of a reply: 8, 16 and 32 are the widths that
    /// the protocol knows.
    pub fn from_xlib_format(format: i32) -> (r: Option<PropertyDataFormat>)
        ensures
            r == Self::of_bits(format),
    {
        if format == 8 {
            Some(PropertyDataFormat::Char)
        } else if format == 16 {
            Some(PropertyDataFormat::Short)
        } else if format == 32 {
            Some(PropertyDataFormat::Long)
        } else {
            None
        }
    }

    /// The format number that a request carries.
    pub fn to_xlib_format(self) -> (r: i32)
        ensures
            r == self.bits(),
    {
        match self {
            PropertyDataFormat::Char => 8,
            PropertyDataFormat::Short => 16,
            PropertyDataFormat::Long => 32,
        }
    }
}

/// A format number names a format exactly when it is that format's width.
pub proof fn lemma_format_round_trip(format: PropertyDataFormat, bits: i32)
    ensures
        PropertyDataFormat::of_bits(format.bits()) == Some(format),
        PropertyDataFormat::of_bits(bits) == Some(format) <==> bits == format.bits(),
{
}

/// How the new data of a property joins the old.
#[derive(Debug, Clone, Copy, PartialEq, Eq, Structural)]
pub enum ChangePropertyMode {
    Replace,
    Prepend,
    Append,
}

impl ChangePropertyMode {
    /// The mode number of the protocol.
    pub open spec fn code(self) -> i32 {
        match self {
            ChangePropertyMode::Replace => 0,
            ChangePropertyMode::Prepend => 1,
            ChangePropertyMode::Append => 2,
        }
    }

    pub fn to_xlib_function_parameter(self) -> (r: i32)
        ensures
            r == self.code(),
    {
        match self {
            ChangePropertyMode::Replace => 0,
            ChangePropertyMode::Prepend => 1,
            ChangePropertyMode::Append => 2,
        }
    }
}

/// The type that a property is asked for.
#[derive(Debug, Copy, Clone)]
pub enum PropertyType {
    Atom(Atom),
    AnyPropertyType,
}

impl PropertyType {
    /// The type argument of the request: the atom, or zero for any type.
    pub open spec fn code(self) -> u64 {
        match self {
            PropertyType::Atom(atom) => atom@,
            PropertyType::AnyPropertyType => 0,
        }
    }

    pub fn to_xlib_property_function_parameter(self) -> (r: u64)
        ensures
            r == self.code(),
    {
        match self {
            PropertyType::Atom(atom) => atom.atom_id(),
            PropertyType::AnyPropertyType => 0,
        }
    }
}

/// The items of a property together with the property's type.
#[derive(Debug)]
pub struct PropertyData<T> {
    property_type: Atom,
    data: Vec<T>,
}

impl<T> PropertyData<T> {
    /// The type of the property, as contracts speak of it.
    pub closed spec fn type_atom(&self) -> Atom {
        self.property_type
    }

    /// The items, as contracts speak of them.
    pub closed spec fn items(&self) -> Seq<T> {
        self.data@
    }

    pub fn data(&self) -> (r: &Vec<T>)
        ensures
            r@ == self.items(),
    {
        &self.data
    }

    pub fn data_mut(&mut self) -> (r: &mut Vec<T>)
        ensures
            r@ == old(self).items(),
            final(self).items() == final(r)@,
            final(self).type_atom() == old(self).type_atom(),
    {
        &mut self.data
    }

    pub fn property_type(&self) -> (r: Atom)
        ensures
            r == self.type_atom(),
    {
        self.property_type
    }
}

impl PropertyData<u8> {
    pub fn from_data(data: &[u8], property_type: Atom) -> (r: Self)
        ensures
            r.items() == data@,
            r.type_atom() == property_type,
    {
        Self { property_type, data: slice_to_vec(data) }
    }

    pub fn new(property_type: Atom) -> (r: Self)
        ensures
            r.items() == Seq::<u8>::empty(),
            r.type_atom() == property_type,
    {
        Self { property_type, data: Vec::new() }
    }
}

impl PropertyData<u16> {
    pub fn from_data(data: &[u16], property_type: Atom) -> (r: Self)
        ensures
            r.items() == data@,
            r.type_atom() == property_type,
    {
        Self { property_type, data: slice_to_vec(data) }
    }

    pub fn new(property_type: Atom) -> (r: Self)
        ensures
            r.items() == Seq::<u16>::empty(),
            r.type_atom() == property_type,
    {
        Self { property_type, data: Vec::new() }
    }
}

impl PropertyData<u32> {
    pub fn from_data(data: &[u32], property_type: Atom) -> (r: Self)
        ensures
            r.items() == data@,
            r.type_atom() == property_type,
    {
        Self { property_type, data: slice_to_vec(data) }
    }

    pub fn new(property_type: Atom) -> (r: Self)
        ensures
            r.items() == Seq::<u32>::empty(),
            r.type_atom() == property_type,
    {
        Self { property_type, data: Vec::new() }
    }
}

/// A property of a window: items of one width, and the property's type.
#[derive(Debug)]
pub enum Property {
    Char(PropertyData<u8>),
    Short(PropertyData<u16>),
    Long(PropertyData<u32>),
}

impl Property {
    /// The width of the items.
    pub open spec fn format(&self) -> PropertyDataFormat {
        match self {
            Property::Char(_) => PropertyDataFormat::Char,
            Property::Short(_) => PropertyDataFormat::Short,
            Property::Long(_) => PropertyDataFormat::Long,
        }
    }

    /// The number of items.
    pub open spec fn item_count(&self) -> nat {
        match self {
            Property::Char(data) => data.items().len(),
            Property::Short(data) => data.items().len(),
            Property::Long(data) => data.items().len(),
        }
    }

    /// The type of the property.
    pub open spec fn type_atom(&self) -> Atom {
        match self {
            Property::Char(data) => data.type_atom(),
            Property::Short(data) => data.type_atom(),
            Property::Long(data) => data.type_atom(),
        }
    }

    /// The format number that a request to change the property carries.
    pub fn to_xlib_change_property_format(&self) -> (r: i32)
        ensures
            r == self.format().bits(),
    {
        match self {
            Property::Char(_) => 8,
            Property::Short(_) => 16,
            Property::Long(_) => 32,
        }
    }

    /// The number of items that a request to change the property carries,
    /// or an error if there are more than a request can count.
    pub fn to_xlib_change_property_nelements(&self) -> (r: Result<i32, ()>)
        ensures
            r is Ok <==> self.item_count() <= i32::MAX,
            r is Ok ==> r->Ok_0 == self.item_count(),
    {
        let len = match self {
            Property::Char(data) => data.data().len(),
            Property::Short(data) => data.data().len(),
            Property::Long(data) => data.data().len(),
        };
        if len <= 0x7fff_ffff {
            Ok(len as i32)
        } else {
            Err(())
        }
    }

    pub fn property_type(&self) -> (r: Atom)
        ensures
            r == self.type_atom(),
    {
        match self {
            Property::Char(data) => data.property_type(),
            Property::Short(data) => data.property_type(),
            Property::Long(data) => data.property_type(),
        }
    }
}

/// Why a property could not be read.
#[derive(Debug)]
pub enum PropertyError {
    DoesNotExist,
    /// The property has another type than the one asked for. Here are its
    /// type and its format. A reply to such a request holds none of the
    /// data of the property, so there are no bytes.
    WrongType(PropertyData<u8>, PropertyDataFormat),
    /// The request failed.
    FunctionFailed,
    /// The reply carried no data.
    PropertyDataHandleNull,
    UnknownDataFormat(i32),
}

/// The longest length, in 32-bit units, that a request for a property can
/// name. The server sends four times as many bytes at most.
pub const PROPERTY_LENGTH_MAX: i64 = 0x1fff_ffff_ffff_ffff;

/// The arguments of a request for the data of a property.
#[derive(Debug, Clone, Copy)]
pub struct GetPropertyRequest {
    pub window: u64,
    pub property: u64,
    /// Where the data starts, in 32-bit units.
    pub long_offset: i64,
    /// How much data is asked for, in 32-bit units.
    pub long_length: i64,
    /// Whether the property is deleted once it was read whole.
    pub delete: i32,
    /// The type asked for, or zero for any type.
    pub req_type: u64,
}

/// What a request for the data of a property returned, but for the data.
#[derive(Debug, Clone, Copy)]
pub struct PropertyReply {
    /// Zero when the request went through.
    pub status: i32,
    /// Whether no buffer came back.
    pub data_is_null: bool,
    /// The type of the property, or zero if the window has no such property.
    pub actual_type: u64,
    pub actual_format: i32,
    /// The number of items in the buffer.
    pub nitems: u64,
    /// The number of bytes of the property that the reply left out; for a
    /// property of another type than the one asked for, its whole length.
    pub bytes_after: u64,
}

/// The part of the returned buffer that is to be copied out. It is never
/// more than the reply says that the buffer holds.
#[derive(Debug, Clone, Copy)]
pub struct PropertyRead {
    /// The width of one item.
    pub format: PropertyDataFormat,
    /// The number of items.
    pub count: u64,
}

/// Items copied out of a returned buffer.
#[derive(Debug)]
pub enum PropertyItems {
    Char(Vec<u8>),
    Short(Vec<u16>),
    Long(Vec<u32>),
}

impl PropertyItems {
    pub open spec fn format(&self) -> PropertyDataFormat {
        match self {
            PropertyItems::Char(_) => PropertyDataFormat::Char,
            PropertyItems::Short(_) => PropertyDataFormat::Short,
            PropertyItems::Long(_) => PropertyDataFormat::Long,
        }
    }

    pub open spec fn count(&self) -> nat {
        match self {
            PropertyItems::Char(items) => items@.len(),
            PropertyItems::Short(items) => items@.len(),
            PropertyItems::Long(items) => items@.len(),
        }
    }

    /// Whether these are the items that `read` asks for.
    pub open spec fn answers(&self, read: PropertyRead) -> bool {
        self.format() == read.format && self.count() == read.count
    }
}

impl Property {
    /// Whether the property holds exactly `items`, in their width.
    pub open spec fn holds(&self, items: PropertyItems) -> bool {
        match (self, items) {
            (Property::Char(data), PropertyItems::Char(v)) => data.items() == v@,
            (Property::Short(data), PropertyItems::Short(v)) => data.items() == v@,
            (Property::Long(data), PropertyItems::Long(v)) => data.items() == v@,
            _ => false,
        }
    }
}

/// Whether a property of type `actual_type` is of the type asked for.
pub open spec fn type_matches(property_type: PropertyType, actual_type: u64) -> bool {
    match property_type {
        PropertyType::Atom(atom) => atom@ == actual_type,
        PropertyType::AnyPropertyType => true,
    }
}

/// What is to be copied out of the buffer of `reply`, or why the property
/// cannot be read.
///
/// A property of the type asked for is read item by item, in its own
/// width. Of a property of another type the reply holds no data, whatever
/// length it names: nothing is read.
pub open spec fn property_read_of(property_type: PropertyType, reply: PropertyReply) -> Result<
    PropertyRead,
    PropertyError,
> {
    if reply.status != 0 {
        Err(PropertyError::FunctionFailed)
    } else if reply.data_is_null {
        Err(PropertyError::PropertyDataHandleNull)
    } else if reply.actual_type == XLIB_NONE {
        Err(PropertyError::DoesNotExist)
    } else {
        match PropertyDataFormat::of_bits(reply.actual_format) {
            None => Err(PropertyError::UnknownDataFormat(reply.actual_format)),
            Some(format) => if type_matches(property_type, reply.actual_type) {
                Ok(PropertyRead { format, count: reply.nitems })
            } else {
                Ok(PropertyRead { format: PropertyDataFormat::Char, count: 0 })
            },
        }
    }
}

/// What is copied out of a buffer is within what the reply says that the
/// buffer holds: no more items than the reply counts, and, if any, items of
/// the width that the reply names.
pub proof fn lemma_read_is_within_reply(property_type: PropertyType, reply: PropertyReply)
    ensures
        property_read_of(property_type, reply) matches Ok(read) ==> {
            &&& read.count <= reply.nitems
            &&& read.count > 0 ==> read.format.bits() == reply.actual_format
        },
{
}

/// The properties of a window.
pub trait WindowProperties: Window {
    /// The request for all the data of the property `property_name`.
    ///
    /// If `is_deleted` is true, the property is deleted once it was read.
    fn get_property_request(
        &self,
        property_name: Atom,
        property_type: PropertyType,
        is_deleted: bool,
    ) -> (r: GetPropertyRequest)
        ensures
            r.window == self.id(),
            r.property == property_name@,
            r.long_offset == 0,
            r.long_length == PROPERTY_LENGTH_MAX,
            r.delete == xlib_bool(is_deleted),
            r.req_type == property_type.code(),
    {
        GetPropertyRequest {
            window: self.window_id(),
            property: property_name.atom_id(),
            long_offset: 0,
            long_length: PROPERTY_LENGTH_MAX,
            delete: to_xlib_bool(is_deleted),
            req_type: property_type.to_xlib_property_function_parameter(),
        }
    }

    /// Says what is to be copied out of the buffer that came with `reply`,
    /// or why the property cannot be read.
    fn property_read(&self, property_type: PropertyType, reply: &PropertyReply) -> (r: Result<
        PropertyRead,
        PropertyError,
    >)
        ensures
            r == property_read_of(property_type, *reply),
            r matches Ok(read) ==> read.count <= reply.nitems,
    {
        if reply.status != 0 {
            return Err(PropertyError::FunctionFailed);
        }
        if reply.data_is_null {
            return Err(PropertyError::PropertyDataHandleNull);
        }
        if reply.actual_type == XLIB_NONE {
            return Err(PropertyError::DoesNotExist);
        }
        let format = match PropertyDataFormat::from_xlib_format(reply.actual_format) {
            Some(format) => format,
            None => {
                return Err(PropertyError::UnknownDataFormat(reply.actual_format));
            },
        };
        match property_type {
            PropertyType::Atom(atom) if atom.atom_id() != reply.actual_type => Ok(
                PropertyRead { format: PropertyDataFormat::Char, count: 0 },
            ),
            PropertyType::Atom(_) | PropertyType::AnyPropertyType => Ok(
                PropertyRead { format, count: reply.nitems },
            ),
        }
    }

    /// Returns the property that `reply` and the items copied out of its
    /// buffer describe.
    ///
    /// `items` is what `property_read` asked for. Where the property cannot
    /// be read or has another type than the one asked for, `items` is not
    /// looked at.
    fn get_property(&self, property_type: PropertyType, reply: &PropertyReply, items: PropertyItems) -> (r:
        Result<Property, PropertyError>)
        requires
            property_read_of(property_type, *reply) matches Ok(read) ==> type_matches(
                property_type,
                reply.actual_type,
            ) ==> items.answers(read),
        ensures
            match property_read_of(property_type, *reply) {
                Err(e) => r == Err::<Property, PropertyError>(e),
                Ok(read) => if type_matches(property_type, reply.actual_type) {
                    &&& r matches Ok(property)
                    &&& property.holds(items)
                    &&& property.item_count() == reply.nitems
                    &&& property.type_atom()@ == reply.actual_type
                } else {
                    &&& r matches Err(PropertyError::WrongType(data, format))
                    &&& data.items().len() == 0
                    &&& data.type_atom()@ == reply.actual_type
                    &&& Some(format) == PropertyDataFormat::of_bits(reply.actual_format)
                },
            },
    {
        let _ = self.property_read(property_type, reply)?;
        let property_type_atom = Atom::from_raw(reply.actual_type);
        match property_type {
            PropertyType::Atom(atom) if atom.atom_id() != reply.actual_type => {
                match PropertyDataFormat::from_xlib_format(reply.actual_format) {
                    Some(data_format) => Err(
                        PropertyError::WrongType(
                            PropertyData::<u8>::new(property_type_atom),
                            data_format,
                        ),
                    ),
                    None => vstd::pervasive::unreached(),
                }
            },
            PropertyType::Atom(_) | PropertyType::AnyPropertyType => match items {
                PropertyItems::Char(data) => Ok(
                    Property::Char(PropertyData::<u8>::from_data(data.as_slice(), property_type_atom)),
                ),
                PropertyItems::Short(data) => Ok(
                    Property::Short(PropertyData::<u16>::from_data(data.as_slice(), property_type_atom)),
                ),
                PropertyItems::Long(data) => Ok(
                    Property::Long(PropertyData::<u32>::from_data(data.as_slice(), property_type_atom)),
                ),
            },
        }
    }

    /// How many atoms are to be copied out of the list that listing the
    /// properties returned: none if no list came back or its length is
    /// negative, else all of them.
    fn property_count(&self, list_is_null: bool, num_prop: i32) -> (r: usize)
        ensures
            r == if list_is_null || num_prop < 0 { 0 } else { num_prop as int },
            r <= ATOM_LIST_MAX,
    {
        if list_is_null || num_prop < 0 {
            0
        } else {
            num_prop as usize
        }
    }

    /// The properties of the window, from the atoms that listing them
    /// returned.
    fn list_properties(&self, atoms: &[u64]) -> (r: AtomList)
        requires
            atoms@.len() <= ATOM_LIST_MAX,
        ensures
            r@.len() == atoms@.len(),
            forall|i: int| 0 <= i < atoms@.len() ==> (#[trigger] r@[i])@ == atoms@[i],
    {
        let mut atom_list = AtomList::new();
        let mut i: usize = 0;
        while i < atoms.len()
            invariant
                i <= atoms@.len(),
                atoms@.len() <= ATOM_LIST_MAX,
                atom_list@.len() == i,
                forall|j: int| 0 <= j < i ==> (#[trigger] atom_list@[j])@ == atoms@[j],
            decreases atoms@.len() - i,
        {
            atom_list.add(Atom::from_raw(atoms[i]));
            i += 1;
        }
        atom_list
    }

    /// The request that changes the property `property_name` to
    /// `property`, or an error if `property` holds more items than a
    /// request can count.
    fn change_property(&self, property_name: Atom, property: Property, mode: ChangePropertyMode) -> (r:
        Result<PropertyChange, ()>)
        ensures
            r is Ok <==> property.item_count() <= i32::MAX,
            r is Ok ==> {
                &&& r->Ok_0.property == property
                &&& r->Ok_0.request == (ChangePropertyRequest {
                    window: self.id(),
                    property: property_name@,
                    property_type: property.type_atom()@,
                    format: property.format().bits(),
                    mode: mode.code(),
                    nelements: property.item_count() as i32,
                })
            },
    {
        let nelements = property.to_xlib_change_property_nelements()?;
        let request = ChangePropertyRequest {
            window: self.window_id(),
            property: property_name.atom_id(),
            property_type: property.property_type().atom_id(),
            format: property.to_xlib_change_property_format(),
            mode: mode.to_xlib_function_parameter(),
            nelements,
        };
        Ok(PropertyChange { request, property })
    }

    /// Says whether asking for a text property brought one: `status` is
    /// what the request returned, `value_is_null` whether the property came
    /// without a value.
    fn text_property_found(&self, status: i32, value_is_null: bool) -> (r: Result<
        (),
        TextPropertyError,
    >)
        ensures
            r == if status == 0 {
                Err::<(), TextPropertyError>(TextPropertyError::XlibFunctionFailed)
            } else if value_is_null {
                Err::<(), TextPropertyError>(TextPropertyError::DoesNotExist)
            } else {
                Ok::<(), TextPropertyError>(())
            },
    {
        if status == 0 {
            return Err(TextPropertyError::XlibFunctionFailed);
        }
        if value_is_null {
            return Err(TextPropertyError::DoesNotExist);
        }
        Ok(())
    }

    /// The strings of a text property that was found, from what its
    /// conversion came to.
    fn get_text_property(&self, texts: Result<Vec<String>, TextError<Vec<String>>>) -> (r: Result<
        Vec<String>,
        TextPropertyError,
    >)
        ensures
            r == match texts {
                Ok(strings) => Ok::<Vec<String>, TextPropertyError>(strings),
                Err(e) => Err::<Vec<String>, TextPropertyError>(TextPropertyError::TextError(e)),
            },
    {
        match texts {
            Ok(strings) => Ok(strings),
            Err(e) => Err(TextPropertyError::TextError(e)),
        }
    }
}

/// The arguments of a request to change a property, but for the data.
#[derive(Debug, Clone, Copy, PartialEq, Eq, Structural)]
pub struct ChangePropertyRequest {
    pub window: u64,
    pub property: u64,
    pub property_type: u64,
    pub format: i32,
    pub mode: i32,
    pub nelements: i32,
}

/// A request to change a property, and the data that it carries.
#[derive(Debug)]
pub struct PropertyChange {
    pub request: ChangePropertyRequest,
    /// The items of the property are the data of the request.
    pub property: Property,
}

/// Why a text property could not be read.
#[derive(Debug)]
pub enum TextPropertyError {
    DoesNotExist,
    TextError(TextError<Vec<String>>),
    XlibFunctionFailed,
}

/// Xlib's `CurrentTime`.
pub const CURRENT_TIME: u64 = 0;

/// The arguments of a request to own a selection.
#[derive(Debug, Clone, Copy)]
pub struct SetSelectionOwnerRequest {
    pub selection: u64,
    pub owner: u64,
    pub time: u64,
}

/// The arguments of a request to convert a selection.
#[derive(Debug, Clone, Copy)]
pub struct ConvertSelectionRequest {
    pub selection: u64,
    pub target: u64,
    pub property: u64,
    pub requestor: u64,
    pub time: u64,
}

/// Selections, as a window owns and asks for them.
pub trait Selection: Window {
    /// The request that makes this window the owner of `selection`, as of
    /// now.
    fn set_owner(&self, selection: Atom) -> (r: SetSelectionOwnerRequest)
        ensures
            r.selection == selection@,
            r.owner == self.id(),
            r.time == CURRENT_TIME,
    {
        SetSelectionOwnerRequest {
            selection: selection.atom_id(),
            owner: self.window_id(),
            time: CURRENT_TIME,
        }
    }

    /// The request that asks the owner of `selection` to convert it to
    /// `target` and to store it in the property `property` of this window.
    fn request_selection_conversion(&self, selection: Atom, target: Atom, property: Atom) -> (r:
        ConvertSelectionRequest)
        ensures
            r.selection == selection@,
            r.target == target@,
            r.property == property@,
            r.requestor == self.id(),
            r.time == CURRENT_TIME,
    {
        ConvertSelectionRequest {
            selection: selection.atom_id(),
            target: target.atom_id(),
            property: property.atom_id(),
            requestor: self.window_id(),
            time: CURRENT_TIME,
        }
    }
}

/// The order of a window among its siblings.
#[derive(Debug, Clone, Copy, PartialEq, Eq, Structural)]
pub enum StackMode {
    Above,
    Below,
    TopIf,
    BottomIf,
    Opposite,
}

impl StackMode {
    /// The number of the mode in the protocol.
    pub open spec fn code(self) -> i32 {
        match self {
            StackMode::Above => 0,
            StackMode::Below => 1,
            StackMode::TopIf => 2,
            StackMode::BottomIf => 3,
            StackMode::Opposite => 4,
        }
    }

    pub fn to_xlib_stack_mode(self) -> (r: i32)
        ensures
            r == self.code(),
    {
        match self {
            StackMode::Above => 0,
            StackMode::Below => 1,
            StackMode::TopIf => 2,
            StackMode::BottomIf => 3,
            StackMode::Opposite => 4,
        }
    }
}

/// The members of `XWindowChanges` that a request names.
#[derive(Debug, Clone, Copy)]
pub struct WindowChangesMask {
    bits: u32,
}

impl View for WindowChangesMask {
    type V = u32;

    closed spec fn view(&self) -> u32 {
        self.bits
    }
}

impl WindowChangesMask {
    pub const X: u32 = 0x01;

    pub const Y: u32 = 0x02;

    pub const WIDTH: u32 = 0x04;

    pub const HEIGHT: u32 = 0x08;

    pub const BORDER_WIDTH: u32 = 0x10;

    pub const SIBLING: u32 = 0x20;

    pub const STACK_MODE: u32 = 0x40;

    /// Every flag at once.
    pub const ALL: u32 = 0x7f;

    /// Whether `bits` holds no bit but those of the flags.
    pub open spec fn is_valid(bits: u32) -> bool {
        bits & !Self::ALL == 0
    }

    #[verifier::type_invariant]
    spec fn well_formed(&self) -> bool {
        Self::is_valid(self.bits)
    }

    /// The mask without any flag.
    pub fn empty() -> (r: Self)
        ensures
            r@ == 0,
    {
        proof {
            lemma_flags_u32(0, 0, Self::ALL);
        }
        WindowChangesMask { bits: 0 }
    }

    /// The flags as an integer, which holds no bit but those of the flags.
    pub fn bits(&self) -> (r: u32)
        ensures
            r == self@,
            Self::is_valid(r),
    {
        proof {
            use_type_invariant(self);
        }
        self.bits
    }

    /// The flags of `self` together with those of the bits `flags` that
    /// are flags.
    pub fn with(self, flags: u32) -> (r: Self)
        ensures
            r@ == self@ | (flags & Self::ALL),
            Self::is_valid(flags) ==> r@ == self@ | flags,
    {
        proof {
            use_type_invariant(&self);
            lemma_flags_u32(flags, 0, Self::ALL);
            lemma_flags_u32(self.bits, flags & Self::ALL, Self::ALL);
        }
        WindowChangesMask { bits: self.bits | (flags & Self::ALL) }
    }
}

/// Every flag of `WindowChangesMask` is valid by itself, and so are the
/// sibling and the stack mode together.
pub proof fn lemma_window_changes_flags_are_valid()
    by (bit_vector)
    ensures
        WindowChangesMask::is_valid(WindowChangesMask::X),
        WindowChangesMask::is_valid(WindowChangesMask::Y),
        WindowChangesMask::is_valid(WindowChangesMask::WIDTH),
        WindowChangesMask::is_valid(WindowChangesMask::HEIGHT),
        WindowChangesMask::is_valid(WindowChangesMask::BORDER_WIDTH),
        WindowChangesMask::is_valid(WindowChangesMask::SIBLING),
        WindowChangesMask::is_valid(WindowChangesMask::STACK_MODE),
        WindowChangesMask::is_valid(WindowChangesMask::SIBLING | WindowChangesMask::STACK_MODE),
{
}

/// The geometry and the stacking of a window as a request carries them.
#[derive(Debug, Clone, Copy, PartialEq, Eq, Structural)]
pub struct XWindowChanges {
    pub x: i32,
    pub y: i32,
    pub width: i32,
    pub height: i32,
    pub border_width: i32,
    pub sibling: u64,
    pub stack_mode: i32,
}

/// The arguments of a request to reconfigure a top level window.
#[derive(Debug, Clone, Copy)]
pub struct ReconfigureRequest {
    pub window: u64,
    pub screen_number: i32,
    /// The members of `changes` that count.
    pub value_mask: u32,
    pub changes: XWindowChanges,
}

/// Collects the changes to the geometry and the stacking of a window.
pub struct ReconfigureWindow<W: Window> {
    window: W,
    window_changes: XWindowChanges,
    value_mask: WindowChangesMask,
}

impl<W: Window> ReconfigureWindow<W> {
    /// The window to be changed.
    pub closed spec fn target(&self) -> W {
        self.window
    }

    /// The changes, as a request carries them.
    pub closed spec fn changes(&self) -> XWindowChanges {
        self.window_changes
    }

    /// The flags of the changes that were set.
    pub closed spec fn mask(&self) -> u32 {
        self.value_mask@
    }

    /// No change is set, and every member of the changes is zero.
    pub fn new(window: W) -> (r: Self)
        ensures
            r.target() == window,
            r.mask() == 0,
            r.changes() == (XWindowChanges {
                x: 0,
                y: 0,
                width: 0,
                height: 0,
                border_width: 0,
                sibling: 0,
                stack_mode: 0,
            }),
    {
        Self {
            window,
            window_changes: XWindowChanges {
                x: 0,
                y: 0,
                width: 0,
                height: 0,
                border_width: 0,
                sibling: 0,
                stack_mode: 0,
            },
            value_mask: WindowChangesMask::empty(),
        }
    }

    pub fn set_x(self, x: i32) -> (r: Self)
        ensures
            r.target() == self.target(),
            r.changes() == (XWindowChanges { x, ..self.changes() }),
            r.mask() == self.mask() | WindowChangesMask::X,
    {
        proof {
            lemma_window_changes_flags_are_valid();
        }
        let mut r = self;
        r.window_changes.x = x;
        r.value_mask = r.value_mask.with(WindowChangesMask::X);
        r
    }

    pub fn set_y(self, y: i32) -> (r: Self)
        ensures
            r.target() == self.target(),
            r.changes() == (XWindowChanges { y, ..self.changes() }),
            r.mask() == self.mask() | WindowChangesMask::Y,
    {
        proof {
            lemma_window_changes_flags_are_valid();
        }
        let mut r = self;
        r.window_changes.y = y;
        r.value_mask = r.value_mask.with(WindowChangesMask::Y);
        r
    }

    /// The width must not be zero.
    pub fn set_width(self, width: i32) -> (r: Self)
        requires
            width != 0,
        ensures
            r.target() == self.target(),
            r.changes() == (XWindowChanges { width, ..self.changes() }),
            r.mask() == self.mask() | WindowChangesMask::WIDTH,
    {
        proof {
            lemma_window_changes_flags_are_valid();
        }
        let mut r = self;
        r.window_changes.width = width;
        r.value_mask = r.value_mask.with(WindowChangesMask::WIDTH);
        r
    }

    /// The height must not be zero.
    pub fn set_height(self, height: i32) -> (r: Self)
        requires
            height != 0,
        ensures
            r.target() == self.target(),
            r.changes() == (XWindowChanges { height, ..self.changes() }),
            r.mask() == self.mask() | WindowChangesMask::HEIGHT,
    {
        proof {
            lemma_window_changes_flags_are_valid();
        }
        let mut r = self;
        r.window_changes.height = height;
        r.value_mask = r.value_mask.with(WindowChangesMask::HEIGHT);
        r
    }

    pub fn set_stack_mode(self, mode: StackMode) -> (r: Self)
        ensures
            r.target() == self.target(),
            r.changes() == (XWindowChanges { stack_mode: mode.code(), ..self.changes() }),
            r.mask() == self.mask() | WindowChangesMask::STACK_MODE,
    {
        proof {
            lemma_window_changes_flags_are_valid();
        }
        let mut r = self;
        r.window_changes.stack_mode = mode.to_xlib_stack_mode();
        r.value_mask = r.value_mask.with(WindowChangesMask::STACK_MODE);
        r
    }
}

impl ReconfigureWindow<TopLevelInputOutputWindow> {
    pub fn set_border_width(self, border_width: i32) -> (r: Self)
        ensures
            r.target() == self.target(),
            r.changes() == (XWindowChanges { border_width, ..self.changes() }),
            r.mask() == self.mask() | WindowChangesMask::BORDER_WIDTH,
    {
        proof {
            lemma_window_changes_flags_are_valid();
        }
        let mut r = self;
        r.window_changes.border_width = border_width;
        r.value_mask = r.value_mask.with(WindowChangesMask::BORDER_WIDTH);
        r
    }

    /// `sibling` must really be a sibling of the window to be changed.
    pub fn set_sibling_and_stack_mode<S: Window>(self, sibling: &S, mode: StackMode) -> (r: Self)
        ensures
            r.target() == self.target(),
            r.changes() == (XWindowChanges {
                sibling: sibling.id(),
                stack_mode: mode.code(),
                ..self.changes()
            }),
            r.mask() == (self.mask() | WindowChangesMask::SIBLING) | WindowChangesMask::STACK_MODE,
    {
        proof {
            lemma_window_changes_flags_are_valid();
        }
        let mut r = self;
        r.window_changes.sibling = sibling.window_id();
        r.value_mask = r.value_mask.with(WindowChangesMask::SIBLING);
        r.set_stack_mode(mode)
    }

    /// The request that makes the changes on `screen`.
    pub fn request(&self, screen: &Screen) -> (r: ReconfigureRequest)
        ensures
            r.window == self.target().id(),
            r.screen_number == screen@.screen_number,
            r.value_mask == self.mask(),
            WindowChangesMask::is_valid(r.value_mask),
            r.changes == self.changes(),
    {
        ReconfigureRequest {
            window: self.window.window_id(),
            screen_number: screen.screen_number(),
            value_mask: self.value_mask.bits(),
            changes: self.window_changes,
        }
    }

    /// Hands the window back: as `Ok` if the request went through, as
    /// `Err` if its status is zero.
    pub fn configure(self, status: i32) -> (r: Result<
        TopLevelInputOutputWindow,
        TopLevelInputOutputWindow,
    >)
        ensures
            r is Ok <==> status != 0,
            r is Ok ==> r->Ok_0 == self.target(),
            r is Err ==> r->Err_0 == self.target(),
    {
        if status == 0 {
            Err(self.window)
        } else {
            Ok(self.window)
        }
    }
}

} // verus!
