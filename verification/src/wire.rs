//! What peers send each other on a fresh stream: the stream's kind, then either a user
//! name (length byte and UTF-8 bytes) or a file offer (big-endian length and header bytes).
use vstd::prelude::*;
use vstd::utf8::*;
use vstd::string::StringSliceAdditionalSpecFns;
use crate::bytes::{append_bytes, be_bytes, be_value, lemma_be_round_trip, u64_from_be, u64_to_be};
use crate::directory::Directory;
use crate::names::Name;
use crate::text::{str_from_utf8, BoundedString};

verus! {

broadcast use vstd::utf8::encode_utf8_decode_utf8, vstd::utf8::encode_utf8_valid_utf8;

/// What a stream between two peers carries, told by its first byte.
#[derive(Clone, Copy, Debug, PartialEq, Eq)]
pub enum StreamKind {
    /// A file offer (byte 0).
    FileTransfer,
    /// An exchange of user names between peers found on the local network (byte 1).
    NameExchange,
}

/// The first byte of a stream of kind `kind`.
pub open spec fn kind_byte(kind: StreamKind) -> u8 {
    match kind {
        StreamKind::FileTransfer => 0,
        StreamKind::NameExchange => 1,
    }
}

impl StreamKind {
    /// The first byte of a stream of this kind.
    pub fn byte(&self) -> (b: u8)
        ensures
            b == kind_byte(*self),
    {
        match self {
            StreamKind::FileTransfer => 0,
            StreamKind::NameExchange => 1,
        }
    }
}

/// A first byte that no stream kind has.
#[derive(Clone, Copy, Debug, PartialEq, Eq)]
pub struct UnknownStreamType(pub u8);

/// The kind of a stream whose first byte is `b`.
pub fn stream_kind(b: u8) -> (res: Result<StreamKind, UnknownStreamType>)
    ensures
        b == 0 ==> res == Ok::<StreamKind, UnknownStreamType>(StreamKind::FileTransfer),
        b == 1 ==> res == Ok::<StreamKind, UnknownStreamType>(StreamKind::NameExchange),
        b > 1 ==> res == Err::<StreamKind, UnknownStreamType>(UnknownStreamType(b)),
{
    if b == 0 {
        Ok(StreamKind::FileTransfer)
    } else if b == 1 {
        Ok(StreamKind::NameExchange)
    } else {
        Err(UnknownStreamType(b))
    }
}

/// The bytes that announce a user name: its length in one byte, then its UTF-8 bytes.
pub open spec fn name_frame_bytes(name: Seq<char>) -> Seq<u8> {
    seq![encode_utf8(name).len() as u8] + encode_utf8(name)
}

/// The bytes that announce `name` to a peer.
pub fn name_frame(name: &Name) -> (frame: Vec<u8>)
    ensures
        frame@ == name_frame_bytes(name@),
        frame@.len() <= 33,
{
    let bytes = name.as_bytes();
    let mut frame: Vec<u8> = Vec::new();
    frame.push(bytes.len() as u8);
    append_bytes(&mut frame, bytes);
    assert(frame@ =~= name_frame_bytes(name@));
    frame
}

/// A user name sent by a peer that is not UTF-8.
#[derive(Clone, Copy, Debug, PartialEq, Eq)]
pub struct NameNotUtf8;

/// The user name that a peer sent: `body` holds the `size` bytes that followed the
/// length byte. A length above 32 cannot be read into the 32-byte buffer.
pub fn name_from_frame(size: u8, body: &[u8]) -> (res: Result<Name, NameNotUtf8>)
    requires
        size <= 32,
        body@.len() == size,
    ensures
        valid_utf8(body@) ==> (res matches Ok(name) && name@ == decode_utf8(body@)),
        !valid_utf8(body@) ==> res == Err::<Name, NameNotUtf8>(NameNotUtf8),
{
    match str_from_utf8(body) {
        Err(_) => Err(NameNotUtf8),
        Ok(s) => {
            proof {
                assert(decode_utf8(encode_utf8(s@)) == s@);
            }
            match BoundedString::<32>::from_str(s) {
                Ok(name) => Ok(name),
                Err(_) => Err(NameNotUtf8),
            }
        },
    }
}

/// What a peer reads from a name frame is the name that was sent.
pub proof fn lemma_name_frame_round_trip(name: Seq<char>)
    requires
        encode_utf8(name).len() <= 32,
    ensures
        ({
            let frame = name_frame_bytes(name);
            &&& frame[0] as int == frame.len() - 1
            &&& frame[0] <= 32
            &&& valid_utf8(frame.drop_first())
            &&& decode_utf8(frame.drop_first()) == name
        }),
{
    let frame = name_frame_bytes(name);
    assert(frame.drop_first() =~= encode_utf8(name));
}

/// A peer's table after it read the name frame body `body` of a peer that is reached
/// at `info`: the name is entered (in place of any entry it had) when the body is UTF-8,
/// and nothing changes otherwise.
pub open spec fn learned<V>(table: Map<Seq<char>, V>, body: Seq<u8>, info: V) -> Map<Seq<char>, V> {
    if valid_utf8(body) {
        table.insert(decode_utf8(body), info)
    } else {
        table
    }
}

/// Reads the name a peer sent (the `size` bytes of `body` after the length byte) and
/// enters it in `peers` with `info`; answers whether the name is new to the table.
pub fn learn_peer_name<V>(peers: &mut Directory<V>, size: u8, body: &[u8], info: V) -> (res: Result<
    bool,
    NameNotUtf8,
>)
    requires
        old(peers).wf(),
        size <= 32,
        body@.len() == size,
    ensures
        final(peers).wf(),
        final(peers).view() == learned(old(peers).view(), body@, info),
        valid_utf8(body@) ==> res == Ok::<bool, NameNotUtf8>(
            !old(peers).view().dom().contains(decode_utf8(body@)),
        ),
        !valid_utf8(body@) ==> res == Err::<bool, NameNotUtf8>(NameNotUtf8),
{
    match name_from_frame(size, body) {
        Err(e) => Err(e),
        Ok(name) => {
            let previous = peers.insert(name, info);
            Ok(previous.is_none())
        },
    }
}

/// Two peers that exchange names over one stream each learn the other: when each sends
/// its name frame and enters the frame it reads with where the other is reached, each
/// table then maps the other's name to the other's address.
pub proof fn lemma_name_exchange<V>(
    a: Seq<char>,
    b: Seq<char>,
    table_a: Map<Seq<char>, V>,
    table_b: Map<Seq<char>, V>,
    info_a: V,
    info_b: V,
)
    requires
        encode_utf8(a).len() <= 32,
        encode_utf8(b).len() <= 32,
    ensures
        ({
            let from_a = name_frame_bytes(a);
            let from_b = name_frame_bytes(b);
            &&& from_a[0] <= 32 && from_a[0] as int == from_a.drop_first().len()
            &&& from_b[0] <= 32 && from_b[0] as int == from_b.drop_first().len()
            &&& learned(table_a, from_b.drop_first(), info_b) == table_a.insert(b, info_b)
            &&& learned(table_b, from_a.drop_first(), info_a) == table_b.insert(a, info_a)
            &&& learned(table_a, from_b.drop_first(), info_b)[b] == info_b
            &&& learned(table_b, from_a.drop_first(), info_a)[a] == info_a
        }),
{
    lemma_name_frame_round_trip(a);
    lemma_name_frame_round_trip(b);
}

/// The bytes of a file offer: the stream kind byte 0, the length of the header as eight
/// big-endian bytes, then the header.
pub open spec fn file_offer_bytes(header: Seq<u8>) -> Seq<u8> {
    seq![0u8] + be_bytes(header.len() as u64) + header
}

/// The bytes that offer a file whose encoded header is `header`.
pub fn file_offer(header: &[u8]) -> (offer: Vec<u8>)
    ensures
        offer@ == file_offer_bytes(header@),
{
    let mut offer: Vec<u8> = Vec::new();
    offer.push(0u8);
    let len = u64_to_be(header.len() as u64);
    append_bytes(&mut offer, len.as_slice());
    append_bytes(&mut offer, header);
    assert(offer@ =~= file_offer_bytes(header@));
    offer
}

/// The length of the header that follows, read from its eight big-endian bytes.
pub fn header_length(bytes: &[u8]) -> (len: u64)
    requires
        bytes@.len() == 8,
    ensures
        len == be_value(bytes@),
{
    u64_from_be(bytes)
}

/// The receiver reads back what the sender of a file offer wrote: the stream kind, the
/// header's length and the header.
pub proof fn lemma_file_offer_round_trip(header: Seq<u8>)
    requires
        header.len() <= u64::MAX,
    ensures
        ({
            let offer = file_offer_bytes(header);
            &&& offer[0] == kind_byte(StreamKind::FileTransfer)
            &&& be_value(offer.subrange(1, 9)) == header.len()
            &&& offer.subrange(9, offer.len() as int) == header
        }),
{
    let offer = file_offer_bytes(header);
    lemma_be_round_trip(header.len() as u64);
    assert(offer.subrange(1, 9) =~= be_bytes(header.len() as u64));
    assert(offer.subrange(9, offer.len() as int) =~= header);
}

} // verus!
