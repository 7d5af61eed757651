//! Lower-case hexadecimal text, as the `hex` crate writes and reads it.
use vstd::prelude::*;
use vstd::utf8::*;
use vstd::string::StringSliceAdditionalSpecFns;

verus! {

broadcast use vstd::utf8::is_ascii_chars_encode_utf8;

/// The digit that stands for a nibble `n` (`0 <= n < 16`): `0`-`9`, then `a`-`f`.
pub open spec fn hex_digit(n: int) -> char {
    if n < 10 {
        (48 + n) as char
    } else {
        (87 + n) as char
    }
}

/// Lower-case hexadecimal text of `bytes`: two digits per byte, high nibble first.
pub open spec fn hex_text(bytes: Seq<u8>) -> Seq<char> {
    Seq::new(
        2 * bytes.len(),
        |i: int|
            if i % 2 == 0 {
                hex_digit(bytes[i / 2] as int / 16)
            } else {
                hex_digit(bytes[i / 2] as int % 16)
            },
    )
}

/// The value of one hexadecimal digit, given as an ASCII byte; either case is accepted.
pub open spec fn hex_value(c: u8) -> Option<int> {
    if 48 <= c <= 57 {
        Some(c - 48)
    } else if 97 <= c <= 102 {
        Some(c - 87)
    } else if 65 <= c <= 70 {
        Some(c - 55)
    } else {
        None
    }
}

/// The bytes that hexadecimal text (as bytes) stands for: `None` when its length is
/// odd or when some byte of it is not a hexadecimal digit.
pub open spec fn hex_bytes(text: Seq<u8>) -> Option<Seq<u8>> {
    if text.len() % 2 == 0 && forall|i: int| 0 <= i < text.len() ==> (#[trigger] hex_value(text[i])) is Some {
        Some(
            Seq::new(
                text.len() / 2,
                |i: int| (hex_value(text[2 * i])->0 * 16 + hex_value(text[2 * i + 1])->0) as u8,
            ),
        )
    } else {
        None
    }
}

/// Text that is not the hexadecimal form of any bytes.
#[derive(Debug, PartialEq, Eq)]
pub struct InvalidHex;

#[verifier::external_type_specification]
#[verifier::external_body]
pub struct ExFromHexError(hex::FromHexError);

/// Calls `hex::encode`, which writes each byte as two lower-case digits, high nibble first.
#[verifier::external_body]
fn hex_encode(data: &[u8]) -> (text: String)
    ensures
        text@ == hex_text(data@),
{
    hex::encode(data)
}

/// Calls `hex::decode`, which fails on text of odd length or with a byte that is not a
/// digit of either case, and otherwise gives one byte per pair of digits.
#[verifier::external_body]
fn hex_decode(text: &[u8]) -> (res: Result<Vec<u8>, hex::FromHexError>)
    ensures
        res is Ok <==> hex_bytes(text@) is Some,
        res matches Ok(bytes) ==> bytes@ == hex_bytes(text@)->0,
{
    hex::decode(text)
}

/// Lower-case hexadecimal text of `bytes`.
pub fn encode_hex(bytes: &[u8]) -> (text: String)
    ensures
        text@ == hex_text(bytes@),
{
    hex_encode(bytes)
}

/// The bytes that the hexadecimal text `text`, given as bytes, stands for.
pub fn decode_hex_bytes(text: &[u8]) -> (res: Result<Vec<u8>, InvalidHex>)
    ensures
        match hex_bytes(text@) {
            Some(bytes) => res matches Ok(v) && v@ == bytes,
            None => res is Err,
        },
{
    match hex_decode(text) {
        Ok(bytes) => Ok(bytes),
        Err(_) => Err(InvalidHex),
    }
}

/// The bytes that the hexadecimal `text` stands for.
pub fn decode_hex(text: &str) -> (res: Result<Vec<u8>, InvalidHex>)
    ensures
        match hex_bytes(text.spec_bytes()) {
            Some(bytes) => res matches Ok(v) && v@ == bytes,
            None => res is Err,
        },
{
    decode_hex_bytes(text.as_bytes())
}

/// Hexadecimal text holds only ASCII characters.
pub proof fn lemma_hex_text_ascii(bytes: Seq<u8>)
    ensures
        is_ascii_chars(hex_text(bytes)),
{
}

/// Reading back what was written: the hexadecimal text of any bytes decodes to those bytes.
pub proof fn lemma_hex_round_trip(bytes: Seq<u8>)
    ensures
        hex_bytes(encode_utf8(hex_text(bytes))) == Some(bytes),
{
    let t = hex_text(bytes);
    lemma_hex_text_ascii(bytes);
    let e = encode_utf8(t);
    assert(e.len() == t.len());
    assert forall|i: int| 0 <= i < e.len() implies (#[trigger] hex_value(e[i])) is Some by {
        assert(e[i] == t[i] as u8);
    }
    let d = hex_bytes(e)->0;
    assert forall|i: int| 0 <= i < bytes.len() implies d[i] == bytes[i] by {
        assert(e[2 * i] == t[2 * i] as u8);
        assert(e[2 * i + 1] == t[2 * i + 1] as u8);
        assert((2 * i) / 2 == i);
        assert((2 * i + 1) / 2 == i);
        assert((2 * i) % 2 == 0);
        assert((2 * i + 1) % 2 == 1);
    }
    assert(d =~= bytes);
}

} // verus!
