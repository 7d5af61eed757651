use pigeon::client::change_request_from_challenge;
use pigeon::crypto::Identity;
use pigeon::directory::Directory;
use pigeon::hex::encode_hex;
use pigeon::messages::{AuthRequest, ChangeNameRequest, GetKeyRequest, RegisterRequest};
use pigeon::names::{parse_name, Name};
use pigeon::registry::{Registry, Status};

fn name(s: &str) -> Name {
    parse_name(s).unwrap()
}

fn register(db: &mut Registry, who: &str, key: [u8; 32]) -> Result<Status, (Status, &'static str)> {
    db.handle_registration(RegisterRequest { name: name(who), publickey: key })
}

#[test]
fn directory_insert_get_remove() {
    let mut d: Directory<u32> = Directory::new();
    assert_eq!(d.insert(name("a"), 1), None);
    assert_eq!(d.insert(name("b"), 2), None);
    assert_eq!(d.insert(name("a"), 3), Some(1));
    assert_eq!(d.get(&name("a")), Some(&3));
    assert!(d.contains(&name("b")));
    assert_eq!(d.remove(&name("b")), Some(2));
    assert!(!d.contains(&name("b")));
    assert_eq!(d.remove(&name("b")), None);
}

#[test]
fn registration_then_key_lookup() {
    let mut db = Registry::new();
    assert_eq!(register(&mut db, "alice", [7; 32]), Ok(Status::Created));
    let found = db.handle_key_request(&GetKeyRequest { target: name("alice") });
    assert_eq!(found, Ok([7; 32]));
}

#[test]
fn taken_name_is_refused_and_kept() {
    let mut db = Registry::new();
    register(&mut db, "alice", [7; 32]).unwrap();
    let again = register(&mut db, "alice", [9; 32]);
    assert_eq!(again, Err((Status::BadRequest, "that name is already registered")));
    assert_eq!(db.handle_key_request(&GetKeyRequest { target: name("alice") }), Ok([7; 32]));
}

#[test]
fn unknown_name_lookup_is_bad_request() {
    let db = Registry::new();
    let res = db.handle_key_request(&GetKeyRequest { target: name("zed") });
    assert_eq!(res, Err((Status::BadRequest, String::from("zed is not registered"))));
    assert_eq!(Status::BadRequest.code(), 400);
}

#[test]
fn start_auth_needs_a_registered_name() {
    let mut db = Registry::new();
    let (status, text) = db.start_auth(&AuthRequest { name: name("nobody") }, [1; 32]);
    assert_eq!(status, Status::BadRequest);
    assert_eq!(text, "cannot change a name that is not registered");
}

#[test]
fn start_auth_answers_challenge_as_hex() {
    let mut db = Registry::new();
    register(&mut db, "alice", [7; 32]).unwrap();
    let (status, text) = db.start_auth(&AuthRequest { name: name("alice") }, [0xab; 32]);
    assert_eq!(status, Status::Success);
    assert_eq!(text, "ab".repeat(32));
    let (status, text) = db.start_auth_fresh(&AuthRequest { name: name("alice") });
    assert_eq!(status, Status::Success);
    assert_eq!(text.len(), 64);
}

#[test]
fn challenge_response_moves_the_key() {
    let id = Identity::generate();
    let mut db = Registry::new();
    register(&mut db, "alice", id.public_key()).unwrap();
    let (status, text) = db.start_auth(&AuthRequest { name: name("alice") }, [42; 32]);
    assert_eq!(status.code(), 200);
    let request = change_request_from_challenge(200, &text, &name("alice"), &name("alicia"), &id).unwrap();
    assert!(db.can_judge_change(&request));
    assert_eq!(db.handle_change_name(request), Status::Success);
    assert_eq!(db.handle_key_request(&GetKeyRequest { target: name("alicia") }), Ok(id.public_key()));
    assert!(db.handle_key_request(&GetKeyRequest { target: name("alice") }).is_err());
}

#[test]
fn accepted_change_cannot_be_replayed() {
    let id = Identity::generate();
    let mut db = Registry::new();
    register(&mut db, "alice", id.public_key()).unwrap();
    let (_, text) = db.start_auth(&AuthRequest { name: name("alice") }, [5; 32]);
    let first = change_request_from_challenge(200, &text, &name("alice"), &name("al"), &id).unwrap();
    let replay = ChangeNameRequest {
        old_name: first.old_name.duplicate(),
        new_name: first.new_name.duplicate(),
        hex_signature: first.hex_signature.clone(),
    };
    assert_eq!(db.handle_change_name(first), Status::Success);
    assert!(db.can_judge_change(&replay));
    assert_eq!(db.handle_change_name(replay), Status::Unauthorized);
}

#[test]
fn signature_by_another_key_is_forbidden() {
    let owner = Identity::generate();
    let thief = Identity::generate();
    let mut db = Registry::new();
    register(&mut db, "alice", owner.public_key()).unwrap();
    let (_, text) = db.start_auth(&AuthRequest { name: name("alice") }, [3; 32]);
    let request = change_request_from_challenge(200, &text, &name("alice"), &name("mallory"), &thief).unwrap();
    assert_eq!(db.handle_change_name(request), Status::Forbidden);
    assert_eq!(db.handle_key_request(&GetKeyRequest { target: name("alice") }), Ok(owner.public_key()));
}

#[test]
fn change_to_a_taken_name_is_bad_request() {
    let id = Identity::generate();
    let mut db = Registry::new();
    register(&mut db, "alice", id.public_key()).unwrap();
    register(&mut db, "bob", [1; 32]).unwrap();
    let (_, text) = db.start_auth(&AuthRequest { name: name("alice") }, [8; 32]);
    let request = change_request_from_challenge(200, &text, &name("alice"), &name("bob"), &id).unwrap();
    assert_eq!(db.handle_change_name(request), Status::BadRequest);
    assert_eq!(db.handle_key_request(&GetKeyRequest { target: name("bob") }), Ok([1; 32]));
}

#[test]
fn change_from_unknown_name_is_unauthorized() {
    let mut db = Registry::new();
    let request = ChangeNameRequest { old_name: name("x"), new_name: name("y"), hex_signature: String::from("00") };
    assert!(db.can_judge_change(&request));
    assert_eq!(db.handle_change_name(request), Status::Unauthorized);
}

#[test]
fn signature_that_is_not_hex_is_server_error() {
    let mut db = Registry::new();
    register(&mut db, "alice", [2; 32]).unwrap();
    let request = ChangeNameRequest { old_name: name("alice"), new_name: name("b"), hex_signature: String::from("xyz") };
    assert!(db.can_judge_change(&request));
    assert_eq!(db.handle_change_name(request), Status::InternalServerError);
    assert_eq!(Status::InternalServerError.code(), 500);
}

#[test]
fn change_without_challenge_cannot_be_judged() {
    let mut db = Registry::new();
    register(&mut db, "alice", [2; 32]).unwrap();
    let request = ChangeNameRequest { old_name: name("alice"), new_name: name("b"), hex_signature: encode_hex(&[0u8; 64]) };
    assert!(!db.can_judge_change(&request));
    let mut db2 = Registry::new();
    register(&mut db2, "alice", [2; 32]).unwrap();
    db2.start_auth(&AuthRequest { name: name("alice") }, [1; 32]);
    let short = ChangeNameRequest { old_name: name("alice"), new_name: name("b"), hex_signature: encode_hex(&[0u8; 10]) };
    assert!(!db2.can_judge_change(&short));
}

#[test]
fn other_requests_never_overwrite_a_registration() {
    let id = Identity::generate();
    let mut db = Registry::new();
    register(&mut db, "alice", [7; 32]).unwrap();
    register(&mut db, "bob", id.public_key()).unwrap();
    assert!(register(&mut db, "alice", [1; 32]).is_err());
    db.start_auth(&AuthRequest { name: name("alice") }, [4; 32]);
    let (_, text) = db.start_auth(&AuthRequest { name: name("bob") }, [6; 32]);
    let request = change_request_from_challenge(200, &text, &name("bob"), &name("carol"), &id).unwrap();
    assert_eq!(db.handle_change_name(request), Status::Success);
    assert_eq!(db.handle_key_request(&GetKeyRequest { target: name("alice") }), Ok([7; 32]));
    assert_eq!(db.handle_key_request(&GetKeyRequest { target: name("carol") }), Ok(id.public_key()));
}
