use x11::xlib;
use x11_wrapper::error::{
    check_error, protocol_error_handler, text_end, ErrorBuffer, ErrorEvent, ProtocolError,
    XErrorEvent,
};

fn raw_error(resourceid: u64, serial: u64, error_code: u8) -> XErrorEvent {
    XErrorEvent { resourceid, serial, error_code, request_code: 18, minor_code: 4 }
}

#[test]
fn error_codes_are_those_of_xlib() {
    let table = [
        (ProtocolError::BadAccess, xlib::BadAccess),
        (ProtocolError::BadAlloc, xlib::BadAlloc),
        (ProtocolError::BadAtom, xlib::BadAtom),
        (ProtocolError::BadColor, xlib::BadColor),
        (ProtocolError::BadCursor, xlib::BadCursor),
        (ProtocolError::BadDrawable, xlib::BadDrawable),
        (ProtocolError::BadFont, xlib::BadFont),
        (ProtocolError::BadGC, xlib::BadGC),
        (ProtocolError::BadIDChoice, xlib::BadIDChoice),
        (ProtocolError::BadImplementation, xlib::BadImplementation),
        (ProtocolError::BadLength, xlib::BadLength),
        (ProtocolError::BadMatch, xlib::BadMatch),
        (ProtocolError::BadName, xlib::BadName),
        (ProtocolError::BadPixmap, xlib::BadPixmap),
        (ProtocolError::BadRequest, xlib::BadRequest),
        (ProtocolError::BadValue, xlib::BadValue),
        (ProtocolError::BadWindow, xlib::BadWindow),
    ];
    for (error, code) in table {
        assert_eq!(error.to_xlib_error_code(), code);
        assert_eq!(ProtocolError::from_xlib_error_code(code), error);
    }
}

#[test]
fn every_error_code_survives_a_round_trip() {
    for code in 0..=255u8 {
        let error = ProtocolError::from_xlib_error_code(code);
        assert_eq!(error.to_xlib_error_code(), code);
        let known = (1..=17).contains(&code);
        assert_eq!(matches!(error, ProtocolError::UnknownError(_)), !known);
    }
}

#[test]
fn unknown_error_keeps_its_code() {
    assert_eq!(ProtocolError::from_xlib_error_code(0), ProtocolError::UnknownError(0));
    assert_eq!(ProtocolError::from_xlib_error_code(18), ProtocolError::UnknownError(18));
    assert_eq!(ProtocolError::from_xlib_error_code(128), ProtocolError::UnknownError(128));
    assert_eq!(ProtocolError::UnknownError(3).to_xlib_error_code(), 3);
}

#[test]
fn empty_buffer_has_no_error() {
    let mut buffer = ErrorBuffer::new();
    assert!(buffer.is_none());
    assert!(check_error(&mut buffer).is_none());
    assert!(buffer.is_none());
}

#[test]
fn handler_stores_the_error() {
    let mut buffer = ErrorBuffer::new();
    assert_eq!(protocol_error_handler(&mut buffer, &raw_error(0x60_0001, 42, xlib::BadWindow)), 0);
    assert!(!buffer.is_none());
    let error = check_error(&mut buffer).unwrap();
    assert_eq!(
        error.error,
        ErrorEvent {
            resource_id: 0x60_0001,
            serial: 42,
            error: ProtocolError::BadWindow,
            request_code: 18,
            minor_code: 4,
        }
    );
    assert_eq!(error.error_text, "");
}

#[test]
fn buffer_keeps_the_first_error_only() {
    let mut buffer = ErrorBuffer::new();
    assert_eq!(protocol_error_handler(&mut buffer, &raw_error(7, 1, xlib::BadWindow)), 0);
    assert_eq!(protocol_error_handler(&mut buffer, &raw_error(8, 2, xlib::BadAtom)), 0);
    assert_eq!(protocol_error_handler(&mut buffer, &raw_error(9, 3, xlib::BadMatch)), 0);
    let error = check_error(&mut buffer).unwrap();
    assert_eq!(error.error.resource_id, 7);
    assert_eq!(error.error.serial, 1);
    assert_eq!(error.error.error, ProtocolError::BadWindow);
    assert!(check_error(&mut buffer).is_none());
}

#[test]
fn buffer_takes_a_new_error_once_emptied() {
    let mut buffer = ErrorBuffer::new();
    protocol_error_handler(&mut buffer, &raw_error(7, 1, xlib::BadWindow));
    assert!(check_error(&mut buffer).is_some());
    protocol_error_handler(&mut buffer, &raw_error(8, 2, 200));
    let error = check_error(&mut buffer).unwrap();
    assert_eq!(error.error.resource_id, 8);
    assert_eq!(error.error.error, ProtocolError::UnknownError(200));
}

#[test]
fn text_ends_at_the_last_zero_byte() {
    assert_eq!(text_end(b"BadWindow\0"), 9);
    assert_eq!(text_end(b"ab\0cd\0"), 5);
    assert_eq!(text_end(b"ab\0cd\0ef"), 5);
    assert_eq!(text_end(b"\0\0\0\0"), 3);
}

#[test]
fn text_without_zero_byte_ends_at_the_start() {
    assert_eq!(text_end(b""), 0);
    assert_eq!(text_end(b"abc"), 0);
    assert_eq!(text_end(b"\0abc"), 0);
}

#[test]
fn set_text_decodes_the_bytes_before_the_end() {
    let mut buffer = ErrorBuffer::new();
    protocol_error_handler(&mut buffer, &raw_error(7, 1, xlib::BadValue));
    let mut error = check_error(&mut buffer).unwrap();
    error.set_text(b"BadValue (integer parameter out of range)\0");
    assert_eq!(error.error_text, "BadValue (integer parameter out of range)");
    assert_eq!(error.error.error, ProtocolError::BadValue);
    error.set_text(b"gr\xc3\xbc\xc3\x9fe\0");
    assert_eq!(error.error_text, "gr\u{fc}\u{df}e");
    error.set_text(b"a\xffb\0");
    assert_eq!(error.error_text, "a\u{fffd}b");
    error.set_text(b"no end");
    assert_eq!(error.error_text, "");
}

#[test]
fn set_text_of_a_zeroed_buffer_keeps_all_but_the_last_byte() {
    let mut buffer = ErrorBuffer::new();
    protocol_error_handler(&mut buffer, &raw_error(7, 1, xlib::BadValue));
    let mut error = check_error(&mut buffer).unwrap();
    let mut text_buffer = [0u8; 256];
    text_buffer[..3].copy_from_slice(b"Bad");
    error.set_text(&text_buffer);
    assert_eq!(error.error_text.len(), 255);
    assert!(error.error_text.starts_with("Bad\0"));
}
