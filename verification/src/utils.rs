//! Atoms, atom names and other small values shared by the requests.

use vstd::prelude::*;

verus! {

/// The identifier that Xlib uses for "no resource".
pub const XLIB_NONE: u64 = 0;

/// Xlib's `True`.
pub const XLIB_TRUE: i32 = 1;

/// Xlib's `False`.
pub const XLIB_FALSE: i32 = 0;

/// The integer that Xlib takes for a boolean argument.
pub open spec fn xlib_bool(value: bool) -> i32 {
    if value {
        XLIB_TRUE
    } else {
        XLIB_FALSE
    }
}

/// Converts a boolean to the integer that Xlib takes in its place.
pub fn to_xlib_bool(value: bool) -> (r: i32)
    ensures
        r == xlib_bool(value),
{
    if value {
        XLIB_TRUE
    } else {
        XLIB_FALSE
    }
}

/// How an Xlib status return is read: zero is failure, anything else success.
pub fn status_to_result(status: i32) -> (r: Result<(), ()>)
    ensures
        r is Ok <==> status != 0,
{
    if status == 0 {
        Err(())
    } else {
        Ok(())
    }
}

/// How a resource identifier is read: zero means that there is no resource.
pub fn nonzero_id(id: u64) -> (r: Option<u64>)
    ensures
        r == if id == XLIB_NONE { None } else { Some(id) },
{
    if id == XLIB_NONE {
        None
    } else {
        Some(id)
    }
}

/// Why a string is no name of an atom.
#[derive(Debug)]
pub enum AtomNameError {
    UnknownCharacter,
    /// There was an internal null byte in the string.
    NulError,
}

/// Whether `c` is one of `[a-zA-Z0-9_]`.
pub open spec fn is_atom_name_char(c: char) -> bool {
    ||| 'a' <= c <= 'z'
    ||| 'A' <= c <= 'Z'
    ||| '0' <= c <= '9'
    ||| c == '_'
}

/// Whether every character of `s` is one of `[a-zA-Z0-9_]`.
pub open spec fn is_atom_name(s: Seq<char>) -> bool {
    forall|i: int| 0 <= i < s.len() ==> is_atom_name_char(#[trigger] s[i])
}

fn check_atom_name_char(c: char) -> (r: bool)
    ensures
        r == is_atom_name_char(c),
{
    ('a' <= c && c <= 'z') || ('A' <= c && c <= 'Z') || ('0' <= c && c <= '9') || c == '_'
}

/// Characters `[a-zA-Z0-9_]` with ASCII encoding.
pub struct AtomName(String);

impl View for AtomName {
    type V = Seq<char>;

    closed spec fn view(&self) -> Seq<char> {
        self.0@
    }
}

impl AtomName {
    #[verifier::type_invariant]
    spec fn well_formed(&self) -> bool {
        is_atom_name(self.0@)
    }

    /// Accepts `string` if it holds nothing but `[a-zA-Z0-9_]`.
    ///
    /// A null byte is not among the accepted characters, so
    /// `AtomNameError::NulError` is never returned.
    pub fn new(string: String) -> (r: Result<Self, AtomNameError>)
        ensures
            r is Ok <==> is_atom_name(string@),
            r is Ok ==> r->Ok_0@ == string@,
            r is Err ==> r->Err_0 is UnknownCharacter,
    {
        let len = string.as_str().unicode_len();
        let mut i: usize = 0;
        while i < len
            invariant
                len == string@.len(),
                i <= len,
                forall|j: int| 0 <= j < i ==> is_atom_name_char(#[trigger] string@[j]),
            decreases len - i,
        {
            let c = string.as_str().get_char(i);
            if !check_atom_name_char(c) {
                return Err(AtomNameError::UnknownCharacter);
            }
            i += 1;
        }
        Ok(AtomName(string))
    }

    /// The name as text.
    pub fn as_str(&self) -> (r: &str)
        ensures
            r@ == self@,
            is_atom_name(r@),
    {
        proof {
            use_type_invariant(self);
        }
        self.0.as_str()
    }
}

/// An interned name.
///
/// An atom carries no display handle: atoms live in the X server for as long
/// as any client is connected.
#[derive(Debug, Clone, Copy)]
pub struct Atom {
    atom_id: u64,
}

impl View for Atom {
    type V = u64;

    closed spec fn view(&self) -> u64 {
        self.atom_id
    }
}

impl Atom {
    /// The atom with the identifier `atom_id`.
    pub closed spec fn of_id(atom_id: u64) -> Atom {
        Atom { atom_id }
    }

    /// Reads the identifier that interning a name returned.
    ///
    /// Zero means that no atom of that name exists and none was created.
    pub fn new(atom_id: u64) -> (r: Result<Atom, ()>)
        ensures
            r is Ok <==> atom_id != 0,
            r is Ok ==> r->Ok_0@ == atom_id,
    {
        if atom_id == 0 {
            Err(())
        } else {
            Ok(Atom { atom_id })
        }
    }

    pub fn atom_id(&self) -> (r: u64)
        ensures
            r == self@,
    {
        self.atom_id
    }

    /// Makes an atom of any identifier, zero included.
    pub fn from_raw(atom_id: u64) -> (r: Atom)
        ensures
            r == Atom::of_id(atom_id),
            r@ == atom_id,
    {
        Self { atom_id }
    }
}

/// Two atoms with the same identifier are the same atom, and an atom has
/// the identifier that it was made of.
pub proof fn lemma_atom_by_id(a: Atom, b: Atom, atom_id: u64)
    ensures
        a@ == b@ ==> a == b,
        Atom::of_id(atom_id)@ == atom_id,
        Atom::of_id(a@) == a,
{
}

/// The longest list of atoms that a request can carry.
pub const ATOM_LIST_MAX: usize = 0x7fff_ffff;

/// A list of at most `ATOM_LIST_MAX` atoms.
pub struct AtomList(Vec<Atom>);

impl View for AtomList {
    type V = Seq<Atom>;

    closed spec fn view(&self) -> Seq<Atom> {
        self.0@
    }
}

impl AtomList {
    #[verifier::type_invariant]
    spec fn well_formed(&self) -> bool {
        self.0@.len() <= ATOM_LIST_MAX
    }

    pub fn new() -> (r: Self)
        ensures
            r@ == Seq::<Atom>::empty(),
    {
        AtomList(Vec::new())
    }

    /// Appends `atom`. The list must not be full.
    pub fn add(&mut self, atom: Atom)
        requires
            old(self)@.len() < ATOM_LIST_MAX,
        ensures
            final(self)@ == old(self)@.push(atom),
    {
        let mut atoms: Vec<Atom> = Vec::new();
        std::mem::swap(&mut self.0, &mut atoms);
        atoms.push(atom);
        std::mem::swap(&mut self.0, &mut atoms);
    }

    /// The number of atoms, which is in `[0, ATOM_LIST_MAX]`.
    pub fn len(&self) -> (r: i32)
        ensures
            r == self@.len(),
    {
        proof {
            use_type_invariant(self);
        }
        self.0.len() as i32
    }

    pub fn atoms(&self) -> (r: &Vec<Atom>)
        ensures
            r@ == self@,
            r@.len() <= ATOM_LIST_MAX,
    {
        proof {
            use_type_invariant(self);
        }
        &self.0
    }
}

/// Why a text could not be converted, with what was converted nevertheless.
#[derive(Debug)]
pub enum TextError<T> {
    NoMemory,
    LocaleNotSupported,
    /// There was an internal null byte in the string.
    NulError,
    /// The number of characters that could not be converted, and the text
    /// in which default characters stand for them.
    UnconvertedCharacters(i32, T),
    ConverterNotFound,
    XlibReturnedNullPointer,
    XlibReturnedNegativeTextCount,
    UnknownError,
}

/// Xlib's `XNoMemory`.
pub const X_NO_MEMORY: i32 = -1;

/// Xlib's `XLocaleNotSupported`.
pub const X_LOCALE_NOT_SUPPORTED: i32 = -2;

/// Xlib's `XConverterNotFound`.
pub const X_CONVERTER_NOT_FOUND: i32 = -3;

impl<T> TextError<T> {
    /// What a conversion of a string list to a text property came to.
    ///
    /// Zero is success. A positive status counts the characters that could
    /// not be converted; `text` is usable then, and is handed back inside the
    /// error.
    pub open spec fn of_status(status: i32, text: T) -> Result<T, TextError<T>> {
        if status == 0 {
            Ok(text)
        } else if status == X_NO_MEMORY {
            Err(TextError::NoMemory)
        } else if status == X_LOCALE_NOT_SUPPORTED {
            Err(TextError::LocaleNotSupported)
        } else if status < X_LOCALE_NOT_SUPPORTED {
            Err(TextError::UnknownError)
        } else {
            Err(TextError::UnconvertedCharacters(status, text))
        }
    }

    /// Reads the status of a conversion of a string list to the text
    /// property `text`.
    pub fn from_status(status: i32, text: T) -> (r: Result<T, TextError<T>>)
        ensures
            r == Self::of_status(status, text),
    {
        if status == 0 {
            Ok(text)
        } else if status == X_NO_MEMORY {
            Err(TextError::NoMemory)
        } else if status == X_LOCALE_NOT_SUPPORTED {
            Err(TextError::LocaleNotSupported)
        } else if status < X_LOCALE_NOT_SUPPORTED {
            Err(TextError::UnknownError)
        } else {
            Err(TextError::UnconvertedCharacters(status, text))
        }
    }
}

/// The text that `bytes` decode to, when every ill-formed sequence is
/// replaced by U+FFFD.
pub uninterp spec fn utf8_lossy(bytes: Seq<u8>) -> Seq<char>;

/// `String::from_utf8_lossy`, with the result owned.
///
/// The result is a function of the bytes alone. Well-formed UTF-8 decodes to
/// the text that it encodes.
#[verifier::external_body]
pub(crate) fn string_from_utf8_lossy(bytes: &[u8]) -> (r: String)
    ensures
        r@ == utf8_lossy(bytes@),
        vstd::utf8::valid_utf8(bytes@) ==> r@ == vstd::utf8::decode_utf8(bytes@),
{
    String::from_utf8_lossy(bytes).into_owned()
}

/// Whether `strings` are the lossy decodings of `texts`, one for one.
pub open spec fn are_lossy_texts(strings: Seq<String>, texts: Seq<Vec<u8>>) -> bool {
    &&& strings.len() == texts.len()
    &&& forall|i: int| 0 <= i < strings.len() ==> (#[trigger] strings[i])@ == utf8_lossy(texts[i]@)
}

/// How many strings are to be copied out of the list that a conversion of a
/// text property returned, or why there is nothing to copy.
pub open spec fn text_count_of(result: i32, list_is_null: bool, text_count: i32) -> Result<
    nat,
    TextError<Vec<String>>,
> {
    if result == X_NO_MEMORY {
        Err(TextError::NoMemory)
    } else if result == X_LOCALE_NOT_SUPPORTED {
        Err(TextError::LocaleNotSupported)
    } else if result == X_CONVERTER_NOT_FOUND {
        Err(TextError::ConverterNotFound)
    } else if result < X_CONVERTER_NOT_FOUND {
        Err(TextError::UnknownError)
    } else if list_is_null {
        Err(TextError::XlibReturnedNullPointer)
    } else if text_count < 0 {
        Err(TextError::XlibReturnedNegativeTextCount)
    } else {
        Ok(text_count as nat)
    }
}

/// Whether `s` holds no null character, so that it can be handed to Xlib as
/// one C string.
pub open spec fn is_c_text(s: Seq<char>) -> bool {
    forall|i: int| 0 <= i < s.len() ==> #[trigger] s[i] != '\0'
}

/// UTF-8 text for a text property.
#[derive(Debug)]
pub struct Text {
    text: String,
}

impl View for Text {
    type V = Seq<char>;

    closed spec fn view(&self) -> Seq<char> {
        self.text@
    }
}

impl Text {
    #[verifier::type_invariant]
    spec fn well_formed(&self) -> bool {
        is_c_text(self.text@)
    }

    /// Accepts `text` unless it holds a null character.
    pub fn new(text: String) -> (r: Result<Self, TextError<Self>>)
        ensures
            r is Ok <==> is_c_text(text@),
            r is Ok ==> r->Ok_0@ == text@,
            r is Err ==> r->Err_0 is NulError,
    {
        let len = text.as_str().unicode_len();
        let mut i: usize = 0;
        while i < len
            invariant
                len == text@.len(),
                i <= len,
                forall|j: int| 0 <= j < i ==> #[trigger] text@[j] != '\0',
            decreases len - i,
        {
            if text.as_str().get_char(i) == '\0' {
                return Err(TextError::NulError);
            }
            i += 1;
        }
        Ok(Text { text })
    }

    /// The text, which holds no null character.
    pub fn as_str(&self) -> (r: &str)
        ensures
            r@ == self@,
            is_c_text(r@),
    {
        proof {
            use_type_invariant(self);
        }
        self.text.as_str()
    }

    /// Says how many strings are to be copied out of the list that a
    /// conversion of a text property returned.
    ///
    /// `result` is the status of the conversion, `list_is_null` whether no
    /// list came back, `text_count` the length that came with the list. A
    /// list that came back with an error is to be freed unread.
    pub fn text_count(result: i32, list_is_null: bool, text_count: i32) -> (r: Result<
        usize,
        TextError<Vec<String>>,
    >)
        ensures
            match text_count_of(result, list_is_null, text_count) {
                Ok(n) => r == Ok::<usize, TextError<Vec<String>>>(n as usize) && n <= i32::MAX,
                Err(e) => r == Err::<usize, TextError<Vec<String>>>(e),
            },
    {
        if result == X_NO_MEMORY {
            return Err(TextError::NoMemory);
        }
        if result == X_LOCALE_NOT_SUPPORTED {
            return Err(TextError::LocaleNotSupported);
        }
        if result == X_CONVERTER_NOT_FOUND {
            return Err(TextError::ConverterNotFound);
        }
        if result < X_CONVERTER_NOT_FOUND {
            return Err(TextError::UnknownError);
        }
        if list_is_null {
            return Err(TextError::XlibReturnedNullPointer);
        }
        if text_count < 0 {
            return Err(TextError::XlibReturnedNegativeTextCount);
        }
        Ok(text_count as usize)
    }

    /// Decodes each of `texts`, replacing what is not UTF-8.
    pub fn decode_texts(texts: &Vec<Vec<u8>>) -> (r: Vec<String>)
        ensures
            are_lossy_texts(r@, texts@),
    {
        let mut string_vec: Vec<String> = Vec::new();
        let mut i: usize = 0;
        while i < texts.len()
            invariant
                i <= texts@.len(),
                string_vec@.len() == i,
                forall|j: int| 0 <= j < i ==> (#[trigger] string_vec@[j])@ == utf8_lossy(texts@[j]@),
            decreases texts@.len() - i,
        {
            string_vec.push(string_from_utf8_lossy(texts[i].as_slice()));
            i += 1;
        }
        string_vec
    }

    /// The strings of a text property, from what its conversion returned.
    ///
    /// `texts` holds the bytes of the strings that `text_count` asked for;
    /// where it asked for none, `texts` is not looked at. The strings are
    /// decoded lossily. They are the result if every character was
    /// converted; otherwise they come back inside the error, with the number
    /// of characters that were not.
    pub fn xlib_text_property_to_string_list(
        result: i32,
        list_is_null: bool,
        text_count: i32,
        texts: &Vec<Vec<u8>>,
    ) -> (r: Result<Vec<String>, TextError<Vec<String>>>)
        requires
            text_count_of(result, list_is_null, text_count) matches Ok(n) ==> texts@.len() == n,
        ensures
            match text_count_of(result, list_is_null, text_count) {
                Err(e) => r == Err::<Vec<String>, TextError<Vec<String>>>(e),
                Ok(_) => if result == 0 {
                    r matches Ok(strings) && are_lossy_texts(strings@, texts@)
                } else {
                    &&& r matches Err(TextError::UnconvertedCharacters(count, strings))
                    &&& count == result
                    &&& are_lossy_texts(strings@, texts@)
                },
            },
    {
        let _ = Self::text_count(result, list_is_null, text_count)?;
        let string_vec = Self::decode_texts(texts);
        if result == 0 {
            Ok(string_vec)
        } else {
            Err(TextError::UnconvertedCharacters(result, string_vec))
        }
    }
}

impl Atom {
    /// The name of an atom, from the bytes that asking for it returned.
    ///
    /// `None` means that nothing came back. The bytes are decoded lossily.
    pub fn get_name(name: Option<&[u8]>) -> (r: Result<String, ()>)
        ensures
            name is None <==> r is Err,
            r is Ok ==> r->Ok_0@ == utf8_lossy(name->Some_0@),
    {
        match name {
            None => Err(()),
            Some(bytes) => Ok(string_from_utf8_lossy(bytes)),
        }
    }
}

} // verus!
