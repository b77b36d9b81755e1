//! Protocol errors and the buffer that keeps one of them until it is asked
//! for.

use crate::utils::{string_from_utf8_lossy, utf8_lossy};
use vstd::prelude::*;
use vstd::slice::slice_subrange;

verus! {

/// An error of the core protocol.
#[derive(Debug, Clone, Copy, PartialEq, Eq, Structural)]
pub enum ProtocolError {
    BadAccess,
    BadAlloc,
    BadAtom,
    BadColor,
    BadCursor,
    BadDrawable,
    BadFont,
    BadGC,
    BadIDChoice,
    BadImplementation,
    BadLength,
    BadMatch,
    BadName,
    BadPixmap,
    BadRequest,
    BadValue,
    BadWindow,
    /// An error code that the core protocol does not define.
    UnknownError(u8),
}

/// The least error code of the core protocol.
pub const FIRST_ERROR_CODE: u8 = 1;

/// The greatest error code of the core protocol.
pub const LAST_ERROR_CODE: u8 = 17;

impl ProtocolError {
    /// The error code of the protocol.
    pub open spec fn code(self) -> u8 {
        match self {
            ProtocolError::BadRequest => 1,
            ProtocolError::BadValue => 2,
            ProtocolError::BadWindow => 3,
            ProtocolError::BadPixmap => 4,
            ProtocolError::BadAtom => 5,
            ProtocolError::BadCursor => 6,
            ProtocolError::BadFont => 7,
            ProtocolError::BadMatch => 8,
            ProtocolError::BadDrawable => 9,
            ProtocolError::BadAccess => 10,
            ProtocolError::BadAlloc => 11,
            ProtocolError::BadColor => 12,
            ProtocolError::BadGC => 13,
            ProtocolError::BadIDChoice => 14,
            ProtocolError::BadName => 15,
            ProtocolError::BadLength => 16,
            ProtocolError::BadImplementation => 17,
            ProtocolError::UnknownError(code) => code,
        }
    }

    /// Whether the error is the one that its code is read as: an
    /// `UnknownError` is, unless it carries a code of the core protocol.
    pub open spec fn is_canonical(self) -> bool {
        self is UnknownError ==> !(FIRST_ERROR_CODE <= self.code() <= LAST_ERROR_CODE)
    }

    /// Reads an error code: the error of the core protocol with that code,
    /// or `UnknownError` if there is none.
    pub fn from_xlib_error_code(code: u8) -> (r: ProtocolError)
        ensures
            r.code() == code,
            r.is_canonical(),
    {
        match code {
            10 => ProtocolError::BadAccess,
            11 => ProtocolError::BadAlloc,
            5 => ProtocolError::BadAtom,
            12 => ProtocolError::BadColor,
            6 => ProtocolError::BadCursor,
            9 => ProtocolError::BadDrawable,
            7 => ProtocolError::BadFont,
            13 => ProtocolError::BadGC,
            14 => ProtocolError::BadIDChoice,
            17 => ProtocolError::BadImplementation,
            16 => ProtocolError::BadLength,
            8 => ProtocolError::BadMatch,
            15 => ProtocolError::BadName,
            4 => ProtocolError::BadPixmap,
            1 => ProtocolError::BadRequest,
            2 => ProtocolError::BadValue,
            3 => ProtocolError::BadWindow,
            code => ProtocolError::UnknownError(code),
        }
    }

    pub fn to_xlib_error_code(&self) -> (r: u8)
        ensures
            r == self.code(),
    {
        match *self {
            ProtocolError::BadAccess => 10,
            ProtocolError::BadAlloc => 11,
            ProtocolError::BadAtom => 5,
            ProtocolError::BadColor => 12,
            ProtocolError::BadCursor => 6,
            ProtocolError::BadDrawable => 9,
            ProtocolError::BadFont => 7,
            ProtocolError::BadGC => 13,
            ProtocolError::BadIDChoice => 14,
            ProtocolError::BadImplementation => 17,
            ProtocolError::BadLength => 16,
            ProtocolError::BadMatch => 8,
            ProtocolError::BadName => 15,
            ProtocolError::BadPixmap => 4,
            ProtocolError::BadRequest => 1,
            ProtocolError::BadValue => 2,
            ProtocolError::BadWindow => 3,
            ProtocolError::UnknownError(code) => code,
        }
    }
}

/// Canonical errors are told apart by their codes: an error code is read as
/// one error only, and that error has the code.
pub proof fn lemma_error_code_round_trip(a: ProtocolError, b: ProtocolError)
    requires
        a.is_canonical(),
        b.is_canonical(),
        a.code() == b.code(),
    ensures
        a == b,
{
}

/// The error event as Xlib hands it to an error handler.
#[derive(Debug, Clone, Copy, PartialEq, Eq, Structural)]
pub struct XErrorEvent {
    pub resourceid: u64,
    pub serial: u64,
    pub error_code: u8,
    pub request_code: u8,
    pub minor_code: u8,
}

/// A protocol error, and the request that it answers.
#[derive(Debug, Clone, Copy, PartialEq, Eq, Structural)]
pub struct ErrorEvent {
    pub resource_id: u64,
    pub serial: u64,
    pub error: ProtocolError,
    pub request_code: u8,
    pub minor_code: u8,
}

impl ErrorEvent {
    /// Whether `self` is `event`, with the error code read.
    pub open spec fn is_reading_of(self, event: XErrorEvent) -> bool {
        &&& self.resource_id == event.resourceid
        &&& self.serial == event.serial
        &&& self.error.code() == event.error_code
        &&& self.error.is_canonical()
        &&& self.request_code == event.request_code
        &&& self.minor_code == event.minor_code
    }
}

/// A protocol error, and what Xlib has to say of it.
#[derive(Debug)]
pub struct ErrorEventAndText {
    pub error: ErrorEvent,
    pub error_text: String,
}

/// Room for one error.
///
/// The error handler writes into it and `check_error` empties it. While it
/// holds an error, later errors are dropped.
#[derive(Debug)]
pub struct ErrorBuffer {
    error: Option<ErrorEvent>,
}

impl View for ErrorBuffer {
    type V = Option<ErrorEvent>;

    closed spec fn view(&self) -> Option<ErrorEvent> {
        self.error
    }
}

impl ErrorBuffer {
    /// An empty buffer.
    pub fn new() -> (r: Self)
        ensures
            r@ is None,
    {
        Self { error: None }
    }

    pub fn is_none(&self) -> (r: bool)
        ensures
            r <==> self@ is None,
    {
        self.error.is_none()
    }
}

/// Takes note of an error that Xlib reports.
///
/// The error is kept if the buffer is empty and dropped otherwise. The
/// result is what Xlib expects of an error handler, and means nothing.
pub fn protocol_error_handler(buffer: &mut ErrorBuffer, event: &XErrorEvent) -> (r: i32)
    ensures
        r == 0,
        old(buffer)@ is Some ==> final(buffer)@ == old(buffer)@,
        old(buffer)@ is None ==> final(buffer)@ is Some && final(buffer)@->Some_0.is_reading_of(
            *event,
        ),
{
    let error = ErrorEvent {
        resource_id: event.resourceid,
        serial: event.serial,
        error: ProtocolError::from_xlib_error_code(event.error_code),
        request_code: event.request_code,
        minor_code: event.minor_code,
    };
    if buffer.error.is_none() {
        buffer.error = Some(error);
    }
    0
}

/// Returns the error that the buffer holds, if any, and empties the buffer.
///
/// The error comes without text; `ErrorEventAndText::set_text` adds it.
pub fn check_error(buffer: &mut ErrorBuffer) -> (r: Option<ErrorEventAndText>)
    ensures
        final(buffer)@ is None,
        r is Some <==> old(buffer)@ is Some,
        r is Some ==> r->Some_0.error == old(buffer)@->Some_0 && r->Some_0.error_text@.len() == 0,
{
    match buffer.error.take() {
        None => None,
        Some(error_event) => Some(
            ErrorEventAndText { error: error_event, error_text: String::new() },
        ),
    }
}

/// Whether `index` is where the text in `buffer` ends: at the last zero
/// byte, or at the start if no byte is zero.
pub open spec fn is_text_end(buffer: Seq<u8>, index: int) -> bool {
    &&& 0 <= index <= buffer.len()
    &&& forall|j: int| index < j < buffer.len() ==> buffer[j] != 0
    &&& index != 0 ==> index < buffer.len() && buffer[index] == 0
}

/// Where the text in `buffer` ends.
pub open spec fn text_end_of(buffer: Seq<u8>) -> int {
    choose|index: int| is_text_end(buffer, index)
}

/// The text in a buffer ends in one place only.
pub proof fn lemma_text_end_is_unique(buffer: Seq<u8>, a: int, b: int)
    requires
        is_text_end(buffer, a),
        is_text_end(buffer, b),
    ensures
        a == b,
{
}

/// Where the text in `text_buffer` ends.
pub fn text_end(text_buffer: &[u8]) -> (r: usize)
    ensures
        is_text_end(text_buffer@, r as int),
        r == text_end_of(text_buffer@),
{
    let mut zero_byte_index: usize = 0;
    let mut i: usize = 0;
    while i < text_buffer.len()
        invariant
            i <= text_buffer@.len(),
            zero_byte_index <= i,
            zero_byte_index != 0 ==> zero_byte_index < i && text_buffer@[zero_byte_index as int] == 0,
            forall|j: int| zero_byte_index < j < i ==> text_buffer@[j] != 0,
        decreases text_buffer@.len() - i,
    {
        if text_buffer[i] == 0 {
            zero_byte_index = i;
        }
        i += 1;
    }
    proof {
        assert(is_text_end(text_buffer@, zero_byte_index as int));
        lemma_text_end_is_unique(
            text_buffer@,
            zero_byte_index as int,
            text_end_of(text_buffer@),
        );
    }
    zero_byte_index
}

impl ErrorEventAndText {
    /// Sets the text to what Xlib wrote into `text_buffer`: the bytes
    /// before the last zero byte, decoded lossily.
    pub fn set_text(&mut self, text_buffer: &[u8])
        ensures
            final(self).error == old(self).error,
            final(self).error_text@ == utf8_lossy(
                text_buffer@.subrange(0, text_end_of(text_buffer@)),
            ),
    {
        let end = text_end(text_buffer);
        let text = slice_subrange(text_buffer, 0, end);
        self.error_text = string_from_utf8_lossy(text);
    }
}

/// Why a query has no answer.
#[derive(Debug)]
pub enum QueryError {
    /// Xlib answered with a number that stands for nothing.
    UnknownEnumValue,
}

/// The answer to a query.
pub type QueryResult<T> = Result<T, QueryError>;

} // verus!
