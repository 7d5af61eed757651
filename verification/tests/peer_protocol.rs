use pigeon::directory::Directory;
use pigeon::wire::learn_peer_name;
use pigeon::console::PrintQueue;
use pigeon::messages::FileHeader;
use pigeon::names::parse_name;
use pigeon::transfer::{
    after_overwrite_answer, after_receive_answer, consent_reply, is_yes, sender_report,
    sender_sends_file, transfer_report, ConsentStep, ReceiveCount, SendReport, TransferReport,
    ACK_BYTE, CHUNK_SIZE,
};
use pigeon::wire::{file_offer, header_length, name_frame, name_from_frame, stream_kind, NameNotUtf8, StreamKind, UnknownStreamType};

#[test]
fn stream_kinds() {
    assert_eq!(stream_kind(0), Ok(StreamKind::FileTransfer));
    assert_eq!(stream_kind(1), Ok(StreamKind::NameExchange));
    assert_eq!(stream_kind(7), Err(UnknownStreamType(7)));
    assert_eq!(StreamKind::NameExchange.byte(), 1);
    assert_eq!(StreamKind::FileTransfer.byte(), 0);
}

#[test]
fn name_frames() {
    let name = parse_name("bob").unwrap();
    let frame = name_frame(&name);
    assert_eq!(frame, vec![3, b'b', b'o', b'b']);
    let back = name_from_frame(frame[0], &frame[1..]).unwrap();
    assert_eq!(back.as_str(), "bob");
    assert_eq!(name_from_frame(2, &[0xc3, 0x28]).unwrap_err(), NameNotUtf8);
}

#[test]
fn file_offers() {
    let header = [10u8, 20, 30];
    let offer = file_offer(&header);
    assert_eq!(offer, vec![0, 0, 0, 0, 0, 0, 0, 0, 3, 10, 20, 30]);
    assert_eq!(header_length(&offer[1..9]), 3);
}

#[test]
fn file_headers() {
    let sender = parse_name("ann").unwrap();
    let header = FileHeader::new(12, "notes.txt", &sender).unwrap();
    assert_eq!(header.size, 12);
    assert_eq!(header.filename.as_str(), "notes.txt");
    assert_eq!(header.sender_name.as_str(), "ann");
    assert!(FileHeader::new(1, &"f".repeat(256), &sender).is_ok());
    assert!(FileHeader::new(1, &"f".repeat(257), &sender).is_err());
    assert_eq!(CHUNK_SIZE, 64 * 1024);
}

#[test]
fn yes_answers() {
    assert!(is_yes("y\n"));
    assert!(is_yes("  Yes please"));
    assert!(!is_yes("no"));
    assert!(!is_yes(""));
    assert!(!is_yes("   \n"));
    assert!(!is_yes("ok y"));
}

#[test]
fn consent_steps() {
    assert_eq!(after_receive_answer(false, false), ConsentStep::Decline);
    assert_eq!(after_receive_answer(true, false), ConsentStep::Accept);
    assert_eq!(after_receive_answer(true, true), ConsentStep::AskOverwrite);
    assert_eq!(after_overwrite_answer(true), ConsentStep::Accept);
    assert_eq!(after_overwrite_answer(false), ConsentStep::Decline);
}

#[test]
fn both_ends_agree() {
    assert!(sender_sends_file(consent_reply(true)));
    assert!(!sender_sends_file(consent_reply(false)));
    assert_eq!(sender_report(ACK_BYTE), SendReport::Delivered);
    assert_eq!(sender_report(0), SendReport::InvalidAck);
}

#[test]
fn transfer_reports() {
    assert_eq!(transfer_report(10, 10), TransferReport::Complete);
    assert_eq!(transfer_report(11, 10), TransferReport::MoreThanExpected);
    assert_eq!(transfer_report(9, 10), TransferReport::LessThanExpected);
    let mut count = ReceiveCount::new();
    count.add(5);
    count.add(7);
    assert_eq!(count.total(), 12);
    assert!(count.can_add(100));
    assert!(!count.can_add(usize::MAX));
}

#[test]
fn print_queue_holds_messages_in_order() {
    let mut queue = PrintQueue::new();
    assert_eq!(queue.print("first"), Some(String::from("first")));
    queue.block();
    assert_eq!(queue.print("second"), None);
    assert_eq!(queue.print("third"), None);
    assert_eq!(queue.unblock(), vec![String::from("second"), String::from("third")]);
    assert_eq!(queue.print("fourth"), Some(String::from("fourth")));
    assert!(queue.flush().is_empty());
}

#[test]
fn two_peers_learn_each_other() {
    let a = parse_name("ann").unwrap();
    let b = parse_name("bo").unwrap();
    let mut table_a: Directory<u32> = Directory::new();
    let mut table_b: Directory<u32> = Directory::new();
    let from_a = name_frame(&a);
    let from_b = name_frame(&b);
    assert_eq!(learn_peer_name(&mut table_a, from_b[0], &from_b[1..], 2), Ok(true));
    assert_eq!(learn_peer_name(&mut table_b, from_a[0], &from_a[1..], 1), Ok(true));
    assert_eq!(table_a.get(&b), Some(&2));
    assert_eq!(table_b.get(&a), Some(&1));
    assert_eq!(learn_peer_name(&mut table_a, from_b[0], &from_b[1..], 5), Ok(false));
    assert_eq!(table_a.get(&b), Some(&5));
    assert_eq!(learn_peer_name(&mut table_a, 1, &[0xff], 9), Err(NameNotUtf8));
}
