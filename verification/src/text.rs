//! Trimming of user input and strings bounded by their UTF-8 length, such as user names.
use vstd::prelude::*;
use vstd::string::StrSliceExecFns;
use vstd::string::StringSliceAdditionalSpecFns;
use vstd::utf8::*;

verus! {

broadcast use vstd::utf8::encode_utf8_decode_utf8, vstd::utf8::decode_utf8_encode_utf8;

/// Whether `c` has the Unicode `White_Space` property, which is what `char::is_whitespace`
/// answers: tab to carriage return, space, next line, no-break space, ogham space mark,
/// the spaces from en quad to hair space, line and paragraph separators, narrow no-break
/// space, medium mathematical space and ideographic space.
pub open spec fn char_is_whitespace(c: char) -> bool {
    let u = c as u32;
    ||| 0x09 <= u <= 0x0d
    ||| u == 0x20
    ||| u == 0x85
    ||| u == 0xa0
    ||| u == 0x1680
    ||| 0x2000 <= u <= 0x200a
    ||| u == 0x2028
    ||| u == 0x2029
    ||| u == 0x202f
    ||| u == 0x205f
    ||| u == 0x3000
}

/// Calls `char::is_whitespace`, which tells the characters with the Unicode `White_Space`
/// property.
#[verifier::external_body]
fn is_whitespace(c: char) -> (b: bool)
    ensures
        b == char_is_whitespace(c),
{
    c.is_whitespace()
}

#[verifier::external_type_specification]
#[verifier::external_body]
pub struct ExUtf8Error(core::str::Utf8Error);

/// Calls `std::str::from_utf8`, which accepts exactly the byte slices that are valid UTF-8.
#[verifier::external_body]
pub(crate) fn str_from_utf8(bytes: &[u8]) -> (res: Result<&str, core::str::Utf8Error>)
    ensures
        res is Ok <==> valid_utf8(bytes@),
        res matches Ok(s) ==> s.spec_bytes() == bytes@,
{
    core::str::from_utf8(bytes)
}

/// `s` without its leading whitespace.
pub open spec fn trim_start(s: Seq<char>) -> Seq<char>
    decreases s.len(),
{
    if s.len() > 0 && char_is_whitespace(s[0]) {
        trim_start(s.drop_first())
    } else {
        s
    }
}

/// `s` without its trailing whitespace.
pub open spec fn trim_end(s: Seq<char>) -> Seq<char>
    decreases s.len(),
{
    if s.len() > 0 && char_is_whitespace(s.last()) {
        trim_end(s.drop_last())
    } else {
        s
    }
}

/// `s` without leading and trailing whitespace, as `str::trim` gives it.
pub open spec fn trimmed(s: Seq<char>) -> Seq<char> {
    trim_end(trim_start(s))
}

/// The number of bytes in the UTF-8 encoding of `s`.
pub open spec fn utf8_len(s: Seq<char>) -> nat {
    encode_utf8(s).len()
}

proof fn lemma_trim_end_prefix(s: Seq<char>)
    ensures
        trim_end(s).len() <= s.len(),
        trim_end(s) == s.subrange(0, trim_end(s).len() as int),
        trim_end(s).len() > 0 ==> !char_is_whitespace(trim_end(s).last()),
    decreases s.len(),
{
    if s.len() > 0 && char_is_whitespace(s.last()) {
        lemma_trim_end_prefix(s.drop_last());
        assert(s.drop_last().subrange(0, trim_end(s).len() as int) =~= s.subrange(
            0,
            trim_end(s).len() as int,
        ));
    } else {
        assert(s.subrange(0, s.len() as int) =~= s);
    }
}

proof fn lemma_trim_start_first(s: Seq<char>)
    ensures
        trim_start(s).len() > 0 ==> !char_is_whitespace(trim_start(s)[0]),
    decreases s.len(),
{
    if s.len() > 0 && char_is_whitespace(s[0]) {
        lemma_trim_start_first(s.drop_first());
    }
}

/// Trimming twice gives what trimming once gave.
pub proof fn lemma_trimmed_idempotent(s: Seq<char>)
    ensures
        trimmed(trimmed(s)) == trimmed(s),
{
    let u = trim_start(s);
    let t = trim_end(u);
    lemma_trim_start_first(s);
    lemma_trim_end_prefix(u);
    if t.len() > 0 {
        assert(t[0] == u[0]);
        assert(trim_start(t) == t);
        lemma_trim_end_prefix(t);
        assert(trim_end(t) == t);
    } else {
        assert(trim_start(t) == t);
        assert(trim_end(t) == t);
    }
}

/// `s` without leading and trailing whitespace (`str::trim`).
pub fn trim(s: &str) -> (r: &str)
    ensures
        r@ == trimmed(s@),
{
    let n = s.unicode_len();
    let mut start: usize = 0;
    assert(s@.subrange(0, n as int) =~= s@);
    while start < n && is_whitespace(s.get_char(start))
        invariant
            n == s@.len(),
            start <= n,
            trim_start(s@) == trim_start(s@.subrange(start as int, n as int)),
        decreases n - start,
    {
        assert(s@.subrange(start as int, n as int).drop_first() =~= s@.subrange(
            start + 1,
            n as int,
        ));
        start = start + 1;
    }
    assert(trim_start(s@) == s@.subrange(start as int, n as int));
    let mut end: usize = n;
    while end > start && is_whitespace(s.get_char(end - 1))
        invariant
            n == s@.len(),
            start <= end <= n,
            trimmed(s@) == trim_end(s@.subrange(start as int, end as int)),
        decreases end - start,
    {
        assert(s@.subrange(start as int, end as int).drop_last() =~= s@.subrange(
            start as int,
            end - 1,
        ));
        end = end - 1;
    }
    s.substring_char(start, end)
}

/// Text that is longer, in UTF-8 bytes, than the room it was to be kept in.
#[derive(Debug, PartialEq, Eq)]
pub struct TooLong;

/// A string of at most `CAP` bytes of UTF-8: the library's form of `arrayvec::ArrayString<CAP>`.
#[derive(Debug)]
pub struct BoundedString<const CAP: usize> {
    text: String,
}

impl<const CAP: usize> View for BoundedString<CAP> {
    type V = Seq<char>;

    closed spec fn view(&self) -> Seq<char> {
        self.text@
    }
}

impl<const CAP: usize> BoundedString<CAP> {
    #[verifier::type_invariant]
    closed spec fn fits(self) -> bool {
        utf8_len(self.text@) <= CAP
    }

    /// Copies `s` in when its UTF-8 encoding has at most `CAP` bytes, as `ArrayString::from` does.
    pub fn from_str(s: &str) -> (res: Result<Self, TooLong>)
        ensures
            utf8_len(s@) <= CAP ==> (res matches Ok(b) && b@ == s@),
            utf8_len(s@) > CAP ==> res is Err,
    {
        if s.as_bytes().len() <= CAP {
            let text = s.to_owned();
            Ok(BoundedString { text })
        } else {
            Err(TooLong)
        }
    }

    /// The text as a string slice.
    pub fn as_str(&self) -> (s: &str)
        ensures
            s@ == self@,
    {
        self.text.as_str()
    }

    /// The UTF-8 bytes of the text.
    pub fn as_bytes(&self) -> (b: &[u8])
        ensures
            b@ == encode_utf8(self@),
            b@.len() <= CAP,
    {
        proof {
            use_type_invariant(self);
        }
        self.text.as_str().as_bytes()
    }

    /// Whether both hold the same text.
    pub fn same_text(&self, other: &Self) -> (b: bool)
        ensures
            b == (self@ == other@),
    {
        self.text == other.text
    }

    /// Another string with the same text.
    pub fn duplicate(&self) -> (r: Self)
        ensures
            r@ == self@,
    {
        proof {
            use_type_invariant(self);
        }
        BoundedString { text: self.text.clone() }
    }
}

} // verus!
