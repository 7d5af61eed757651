//! The file transfer between two peers: the header that announces a file, the
//! receiver's consent, the replies on the stream and the check of what arrived.
use vstd::prelude::*;
use vstd::string::StrSliceExecFns;
use crate::messages::FileHeader;
use crate::names::Name;
use crate::text::{trim, trimmed, utf8_len, BoundedString, TooLong};

verus! {

/// The size of the pieces in which a file is read and written.
pub const CHUNK_SIZE: usize = 65536;

/// The most bytes of UTF-8 that the name of a sent file may hold.
pub const FILENAME_CAPACITY: usize = 256;

impl FileHeader {
    /// The header that announces a file of `size` bytes called `filename`, sent by `sender`.
    pub fn new(size: u64, filename: &str, sender: &Name) -> (res: Result<FileHeader, TooLong>)
        ensures
            utf8_len(filename@) <= FILENAME_CAPACITY ==> (res matches Ok(h) && h.size == size
                && h.filename@ == filename@ && h.sender_name@ == sender@),
            utf8_len(filename@) > FILENAME_CAPACITY ==> res is Err,
    {
        match BoundedString::<256>::from_str(filename) {
            Ok(name) => Ok(FileHeader { size, filename: name, sender_name: sender.duplicate() }),
            Err(e) => Err(e),
        }
    }
}

/// Whether an answer to a yes/no question is yes: once trimmed, it starts with `y` or `Y`.
pub open spec fn says_yes(answer: Seq<char>) -> bool {
    trimmed(answer).len() > 0 && (trimmed(answer)[0] == 'y' || trimmed(answer)[0] == 'Y')
}

/// Reads an answer to a yes/no question; anything but a `y` or `Y` first is no.
pub fn is_yes(answer: &str) -> (yes: bool)
    ensures
        yes == says_yes(answer@),
        yes ==> trimmed(answer@).len() > 0 && (trimmed(answer@)[0] == 'y' || trimmed(answer@)[0]
            == 'Y'),
        trimmed(answer@).len() > 0 && (trimmed(answer@)[0] == 'y' || trimmed(answer@)[0] == 'Y')
            ==> yes,
{
    let t = trim(answer);
    if t.unicode_len() == 0 {
        false
    } else {
        let c = t.get_char(0);
        c == 'y' || c == 'Y'
    }
}

/// What the receiver does next while deciding whether to take a file.
#[derive(Clone, Copy, Debug, PartialEq, Eq)]
pub enum ConsentStep {
    /// Take the file.
    Accept,
    /// Refuse the file.
    Decline,
    /// A file of that name exists: ask whether to overwrite it.
    AskOverwrite,
}

/// The step after the answer `yes` (or no) to whether to receive the file.
pub open spec fn receive_step(yes: bool, file_exists: bool) -> ConsentStep {
    if !yes {
        ConsentStep::Decline
    } else if !file_exists {
        ConsentStep::Accept
    } else {
        ConsentStep::AskOverwrite
    }
}

/// The step after the answer `yes` (or no) to whether to overwrite the existing file.
pub open spec fn overwrite_step(yes: bool) -> ConsentStep {
    if yes {
        ConsentStep::Accept
    } else {
        ConsentStep::Decline
    }
}

/// The step after the user answered whether to receive the file.
pub fn after_receive_answer(yes: bool, file_exists: bool) -> (step: ConsentStep)
    ensures
        step == receive_step(yes, file_exists),
{
    if !yes {
        ConsentStep::Decline
    } else if !file_exists {
        ConsentStep::Accept
    } else {
        ConsentStep::AskOverwrite
    }
}

/// The step after the user answered whether to overwrite the existing file.
pub fn after_overwrite_answer(yes: bool) -> (step: ConsentStep)
    ensures
        step == overwrite_step(yes),
{
    if yes {
        ConsentStep::Accept
    } else {
        ConsentStep::Decline
    }
}

/// A file is written only with consent: the answers lead to taking the file exactly when
/// the first is yes and, where the file exists, the second is yes too.
pub proof fn lemma_consent(yes: bool, file_exists: bool, overwrite: bool)
    ensures
        ({
            let first = receive_step(yes, file_exists);
            let last = if first == ConsentStep::AskOverwrite {
                overwrite_step(overwrite)
            } else {
                first
            };
            last == ConsentStep::Accept <==> yes && (!file_exists || overwrite)
        }),
{
}

/// The byte with which the receiver refuses a file.
pub const DECLINE_BYTE: u8 = 0;

/// The byte with which the receiver takes a file.
pub const ACCEPT_BYTE: u8 = 1;

/// The byte with which the receiver acknowledges a received file.
pub const ACK_BYTE: u8 = 2;

/// The byte with which the receiver answers a file offer.
pub open spec fn reply_byte(accept: bool) -> u8 {
    if accept {
        ACCEPT_BYTE
    } else {
        DECLINE_BYTE
    }
}

/// Whether the sender sends the file after the reply `reply`.
pub open spec fn sends_file(reply: u8) -> bool {
    reply == ACCEPT_BYTE
}

/// What the sender reports on the acknowledgement byte `ack`.
pub open spec fn report_on(ack: u8) -> SendReport {
    if ack == ACK_BYTE {
        SendReport::Delivered
    } else {
        SendReport::InvalidAck
    }
}

/// The receiver's reply to a file offer.
pub fn consent_reply(accept: bool) -> (b: u8)
    ensures
        b == reply_byte(accept),
{
    if accept {
        ACCEPT_BYTE
    } else {
        DECLINE_BYTE
    }
}

/// Whether the sender sends the file after the receiver replied `reply`.
pub fn sender_sends_file(reply: u8) -> (send: bool)
    ensures
        send == sends_file(reply),
{
    reply == ACCEPT_BYTE
}

/// What the sender reports after the receiver's last byte.
#[derive(Clone, Copy, Debug, PartialEq, Eq)]
pub enum SendReport {
    /// The receiver acknowledged the file.
    Delivered,
    /// The receiver answered something else.
    InvalidAck,
}

/// The sender's report on the acknowledgement byte `ack`.
pub fn sender_report(ack: u8) -> (report: SendReport)
    ensures
        report == report_on(ack),
{
    if ack == ACK_BYTE {
        SendReport::Delivered
    } else {
        SendReport::InvalidAck
    }
}

/// Both ends agree: the sender sends the file exactly when the receiver consented, and
/// reports it delivered on the acknowledgement that the receiver sends after the file,
/// which no reply to the offer can be taken for.
pub proof fn lemma_transfer_agreement(accept: bool)
    ensures
        sends_file(reply_byte(accept)) == accept,
        report_on(ACK_BYTE) == SendReport::Delivered,
        report_on(reply_byte(accept)) == SendReport::InvalidAck,
{
}

/// How the number of bytes received compares with the size that the header announced.
#[derive(Clone, Copy, Debug, PartialEq, Eq)]
pub enum TransferReport {
    /// More bytes arrived than announced.
    MoreThanExpected,
    /// Fewer bytes arrived than announced.
    LessThanExpected,
    /// Exactly the announced number of bytes arrived.
    Complete,
}

/// The report on a transfer of `received` bytes when `expected` were announced.
pub fn transfer_report(received: u64, expected: u64) -> (r: TransferReport)
    ensures
        r == if received > expected {
            TransferReport::MoreThanExpected
        } else if received < expected {
            TransferReport::LessThanExpected
        } else {
            TransferReport::Complete
        },
{
    if received > expected {
        TransferReport::MoreThanExpected
    } else if received < expected {
        TransferReport::LessThanExpected
    } else {
        TransferReport::Complete
    }
}

/// The count of bytes written so far while receiving a file.
pub struct ReceiveCount {
    total: usize,
}

impl ReceiveCount {
    /// The bytes counted so far.
    pub closed spec fn view(&self) -> nat {
        self.total as nat
    }

    /// Nothing received yet.
    pub fn new() -> (c: ReceiveCount)
        ensures
            c.view() == 0,
    {
        ReceiveCount { total: 0 }
    }

    /// Whether `amount` more bytes can be counted without overflowing a `usize`.
    pub fn can_add(&self, amount: usize) -> (ok: bool)
        ensures
            ok == (self.view() + amount <= usize::MAX),
    {
        amount <= usize::MAX - self.total
    }

    /// Counts `amount` more bytes.
    pub fn add(&mut self, amount: usize)
        requires
            old(self).view() + amount <= usize::MAX,
        ensures
            final(self).view() == old(self).view() + amount,
    {
        self.total = self.total + amount;
    }

    /// The bytes counted, as the 64-bit number compared with the header's size.
    pub fn total(&self) -> (t: u64)
        ensures
            t == self.view(),
    {
        self.total as u64
    }
}


/// Only a `y` or a `Y` says yes: every answer whose trimmed text is empty or starts with
/// any other character (such as `n` or `N`) is no, and every answer whose trimmed text
/// starts with `y` or `Y` is yes, whatever follows.
pub proof fn lemma_only_y_says_yes(answer: Seq<char>)
    ensures
        trimmed(answer).len() == 0 ==> !says_yes(answer),
        trimmed(answer).len() > 0 && trimmed(answer)[0] != 'y' && trimmed(answer)[0] != 'Y'
            ==> !says_yes(answer),
        trimmed(answer).len() > 0 && (trimmed(answer)[0] == 'y' || trimmed(answer)[0] == 'Y')
            ==> says_yes(answer),
{
}

} // verus!
