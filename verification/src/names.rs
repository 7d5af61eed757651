//! User names: how they are read from the user, kept on disk and checked.
use vstd::prelude::*;
use vstd::string::StringSliceAdditionalSpecFns;
use vstd::utf8::*;
use crate::bytes::copy_bytes;
use crate::text::{str_from_utf8, BoundedString, TooLong, trim, trimmed, utf8_len, lemma_trimmed_idempotent};

verus! {

broadcast use vstd::utf8::encode_utf8_decode_utf8, vstd::utf8::decode_utf8_encode_utf8,
    vstd::utf8::encode_utf8_valid_utf8;

/// The most bytes of UTF-8 that a user name may hold.
pub const NAME_CAPACITY: usize = 32;

/// A user name: at most 32 bytes of UTF-8.
pub type Name = BoundedString<32>;

/// What a user typed, read as a name: the input without leading and trailing
/// whitespace, when that fits in a name.
pub open spec fn name_from_input(input: Seq<char>) -> Option<Seq<char>> {
    if utf8_len(trimmed(input)) <= NAME_CAPACITY {
        Some(trimmed(input))
    } else {
        None
    }
}

/// Reads a name from what the user typed: trims it and refuses it when it is too long.
pub fn parse_name(input: &str) -> (res: Result<Name, TooLong>)
    ensures
        match name_from_input(input@) {
            Some(n) => res matches Ok(name) && name@ == n,
            None => res is Err,
        },
        utf8_len(trimmed(input@)) <= NAME_CAPACITY ==> (res matches Ok(name) && name@ == trimmed(
            input@,
        )),
        res is Err ==> utf8_len(trimmed(input@)) > NAME_CAPACITY,
{
    Name::from_str(trim(input))
}

/// Why the contents of a name file are not a name.
#[derive(Debug, PartialEq, Eq)]
pub enum NameFileError {
    /// The file is not UTF-8.
    NotUtf8,
    /// The trimmed text does not fit in a name.
    TooLong,
}

/// What a name file holding `bytes` gives: its text, trimmed, when the bytes are UTF-8
/// and the trimmed text fits in a name.
pub open spec fn name_from_file(bytes: Seq<u8>) -> Result<Seq<char>, NameFileError> {
    if !valid_utf8(bytes) {
        Err(NameFileError::NotUtf8)
    } else {
        match name_from_input(decode_utf8(bytes)) {
            Some(n) => Ok(n),
            None => Err(NameFileError::TooLong),
        }
    }
}

/// Reads the name kept in a name file.
pub fn load_name(bytes: &[u8]) -> (res: Result<Name, NameFileError>)
    ensures
        match name_from_file(bytes@) {
            Ok(n) => res matches Ok(name) && name@ == n,
            Err(e) => res == Err::<Name, NameFileError>(e),
        },
{
    match str_from_utf8(bytes) {
        Err(_) => Err(NameFileError::NotUtf8),
        Ok(s) => {
            proof {
                assert(decode_utf8(encode_utf8(s@)) == s@);
            }
            match parse_name(s) {
                Ok(name) => Ok(name),
                Err(_) => Err(NameFileError::TooLong),
            }
        },
    }
}

/// A name as it is written to its file: its UTF-8 bytes.
pub fn name_file_contents(name: &Name) -> (bytes: Vec<u8>)
    ensures
        bytes@ == encode_utf8(name@),
{
    copy_bytes(name.as_bytes())
}

/// Every name that `parse_name` gives is already trimmed.
pub proof fn lemma_parsed_name_trimmed(input: Seq<char>)
    requires
        name_from_input(input) is Some,
    ensures
        trimmed(name_from_input(input)->0) == name_from_input(input)->0,
{
    lemma_trimmed_idempotent(input);
}

/// What is read back from a name file is the name that was written to it, for every
/// name that `parse_name` can give.
pub proof fn lemma_name_file_round_trip(input: Seq<char>)
    requires
        name_from_input(input) is Some,
    ensures
        name_from_file(encode_utf8(name_from_input(input)->0)) == Ok::<Seq<char>, NameFileError>(
            name_from_input(input)->0,
        ),
{
    let n = name_from_input(input)->0;
    lemma_trimmed_idempotent(input);
    assert(decode_utf8(encode_utf8(n)) == n);
    assert(valid_utf8(encode_utf8(n)));
}


/// Any text is a name when it fits: for every input, the name read is exactly the trimmed
/// text whenever that has at most 32 bytes of UTF-8, whatever characters (spaces among
/// them) it holds; an input is refused only when its trimmed text is longer.
pub proof fn lemma_every_fitting_text_is_a_name(input: Seq<char>)
    ensures
        utf8_len(trimmed(input)) <= 32 ==> name_from_input(input) == Some(trimmed(input)),
        name_from_input(input) is None <==> utf8_len(trimmed(input)) > 32,
        name_from_input(input) matches Some(n) ==> n == trimmed(input) && utf8_len(n) <= 32,
{
}

} // verus!
