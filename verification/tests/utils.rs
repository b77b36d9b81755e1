use x11::xlib;
use x11_wrapper::utils::{
    nonzero_id, status_to_result, to_xlib_bool, Atom, AtomList, AtomName, AtomNameError, Text,
    TextError, ATOM_LIST_MAX, XLIB_FALSE, XLIB_NONE, XLIB_TRUE, X_CONVERTER_NOT_FOUND,
    X_LOCALE_NOT_SUPPORTED, X_NO_MEMORY,
};

#[test]
fn booleans_are_those_of_xlib() {
    assert_eq!(XLIB_TRUE, xlib::True);
    assert_eq!(XLIB_FALSE, xlib::False);
    assert_eq!(to_xlib_bool(true), xlib::True);
    assert_eq!(to_xlib_bool(false), xlib::False);
    assert_eq!(XLIB_NONE, 0);
}

#[test]
fn text_status_codes_are_negative() {
    assert_eq!(X_NO_MEMORY, -1);
    assert_eq!(X_LOCALE_NOT_SUPPORTED, -2);
    assert_eq!(X_CONVERTER_NOT_FOUND, -3);
}

#[test]
fn zero_status_is_failure() {
    assert_eq!(status_to_result(0), Err(()));
    assert_eq!(status_to_result(1), Ok(()));
    assert_eq!(status_to_result(-1), Ok(()));
    assert_eq!(status_to_result(i32::MAX), Ok(()));
}

#[test]
fn zero_identifier_is_no_resource() {
    assert_eq!(nonzero_id(0), None);
    assert_eq!(nonzero_id(1), Some(1));
    assert_eq!(nonzero_id(u64::MAX), Some(u64::MAX));
}

#[test]
fn atom_name_accepts_letters_digits_and_underscore() {
    for name in ["WM_DELETE_WINDOW", "_NET_WM_STATE", "abcxyz", "ABCXYZ", "0189", "_", ""] {
        let atom_name = AtomName::new(name.to_string());
        assert!(atom_name.is_ok(), "{}", name);
        assert_eq!(atom_name.ok().unwrap().as_str(), name);
    }
}

#[test]
fn atom_name_rejects_other_characters() {
    for name in ["WM CLASS", "a-b", "a\0b", "\0", "gr\u{fc}n", "a.b", "`", "{", "@", "[", "/", ":"] {
        assert!(
            matches!(AtomName::new(name.to_string()), Err(AtomNameError::UnknownCharacter)),
            "{}",
            name
        );
    }
}

#[test]
fn atom_of_zero_is_an_error() {
    assert!(Atom::new(0).is_err());
    assert_eq!(Atom::new(1).unwrap().atom_id(), 1);
    assert_eq!(Atom::new(u64::MAX).unwrap().atom_id(), u64::MAX);
}

#[test]
fn raw_atom_may_be_zero() {
    assert_eq!(Atom::from_raw(0).atom_id(), 0);
    assert_eq!(Atom::from_raw(39).atom_id(), 39);
}

#[test]
fn atom_name_is_decoded_lossily() {
    assert_eq!(Atom::get_name(None), Err(()));
    assert_eq!(Atom::get_name(Some(b"WM_NAME")), Ok("WM_NAME".to_string()));
    assert_eq!(Atom::get_name(Some(b"")), Ok(String::new()));
    assert_eq!(Atom::get_name(Some(b"A\xffB")), Ok("A\u{fffd}B".to_string()));
    assert_eq!(Atom::get_name(Some(b"\xe2\x82\xac")), Ok("\u{20ac}".to_string()));
}

#[test]
fn atom_list_grows_in_order() {
    let mut list = AtomList::new();
    assert_eq!(list.len(), 0);
    assert!(list.atoms().is_empty());
    list.add(Atom::from_raw(5));
    list.add(Atom::from_raw(3));
    list.add(Atom::from_raw(5));
    assert_eq!(list.len(), 3);
    let ids: Vec<u64> = list.atoms().iter().map(|atom| atom.atom_id()).collect();
    assert_eq!(ids, vec![5, 3, 5]);
}

#[test]
fn atom_list_limit_is_the_greatest_int() {
    assert_eq!(ATOM_LIST_MAX, i32::MAX as usize);
}

#[test]
fn text_rejects_null_characters() {
    assert!(matches!(Text::new("a\0b".to_string()), Err(TextError::NulError)));
    assert!(matches!(Text::new("\0".to_string()), Err(TextError::NulError)));
    assert!(matches!(Text::new("end\0".to_string()), Err(TextError::NulError)));
}

#[test]
fn text_accepts_everything_else() {
    for text in ["", "Hello world", "gr\u{fc}\u{df}e \u{1f980}", " \t\n"] {
        assert_eq!(Text::new(text.to_string()).unwrap().as_str(), text);
    }
}

#[test]
fn conversion_status_is_read() {
    assert!(matches!(TextError::from_status(0, "t"), Ok("t")));
    assert!(matches!(TextError::from_status(-1, "t"), Err(TextError::NoMemory)));
    assert!(matches!(TextError::from_status(-2, "t"), Err(TextError::LocaleNotSupported)));
    assert!(matches!(TextError::from_status(-3, "t"), Err(TextError::UnknownError)));
    assert!(matches!(TextError::from_status(i32::MIN, "t"), Err(TextError::UnknownError)));
    assert!(matches!(
        TextError::from_status(1, "t"),
        Err(TextError::UnconvertedCharacters(1, "t"))
    ));
    assert!(matches!(
        TextError::from_status(i32::MAX, "t"),
        Err(TextError::UnconvertedCharacters(i32::MAX, "t"))
    ));
}

#[test]
fn text_count_is_read() {
    assert!(matches!(Text::text_count(0, false, 3), Ok(3)));
    assert!(matches!(Text::text_count(0, false, 0), Ok(0)));
    assert!(matches!(Text::text_count(2, false, 1), Ok(1)));
    assert!(matches!(Text::text_count(-1, false, 3), Err(TextError::NoMemory)));
    assert!(matches!(Text::text_count(-2, false, 3), Err(TextError::LocaleNotSupported)));
    assert!(matches!(Text::text_count(-3, false, 3), Err(TextError::ConverterNotFound)));
    assert!(matches!(Text::text_count(-4, false, 3), Err(TextError::UnknownError)));
    assert!(matches!(Text::text_count(i32::MIN, true, -1), Err(TextError::UnknownError)));
    assert!(matches!(Text::text_count(0, true, 3), Err(TextError::XlibReturnedNullPointer)));
    assert!(matches!(Text::text_count(0, true, -3), Err(TextError::XlibReturnedNullPointer)));
    assert!(matches!(
        Text::text_count(0, false, -1),
        Err(TextError::XlibReturnedNegativeTextCount)
    ));
    assert!(matches!(Text::text_count(0, false, i32::MAX), Ok(0x7fff_ffff)));
}

#[test]
fn texts_are_decoded_lossily() {
    let texts = vec![b"one".to_vec(), b"".to_vec(), b"tw\xc3\xb6".to_vec(), b"\xc3".to_vec()];
    assert_eq!(Text::decode_texts(&texts), vec!["one", "", "tw\u{f6}", "\u{fffd}"]);
    assert!(Text::decode_texts(&Vec::new()).is_empty());
}

#[test]
fn string_list_of_a_clean_conversion() {
    let texts = vec![b"xterm".to_vec(), b"-e".to_vec()];
    let list = Text::xlib_text_property_to_string_list(0, false, 2, &texts);
    assert_eq!(list.unwrap(), vec!["xterm", "-e"]);
}

#[test]
fn string_list_with_unconverted_characters() {
    let texts = vec![b"x?term".to_vec()];
    match Text::xlib_text_property_to_string_list(1, false, 1, &texts) {
        Err(TextError::UnconvertedCharacters(count, strings)) => {
            assert_eq!(count, 1);
            assert_eq!(strings, vec!["x?term"]);
        }
        other => panic!("{:?}", other),
    }
}

#[test]
fn string_list_of_a_failed_conversion() {
    let none = Vec::new();
    assert!(matches!(
        Text::xlib_text_property_to_string_list(-1, true, 0, &none),
        Err(TextError::NoMemory)
    ));
    assert!(matches!(
        Text::xlib_text_property_to_string_list(-3, false, 2, &none),
        Err(TextError::ConverterNotFound)
    ));
    assert!(matches!(
        Text::xlib_text_property_to_string_list(0, true, 2, &none),
        Err(TextError::XlibReturnedNullPointer)
    ));
    assert!(matches!(
        Text::xlib_text_property_to_string_list(0, false, -2, &none),
        Err(TextError::XlibReturnedNegativeTextCount)
    ));
}
