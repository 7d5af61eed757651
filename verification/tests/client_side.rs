use pigeon::client::{
    after_local_lookup, after_server_lookup, change_name_outcome, change_request_from_challenge,
    check_server_proof, classify_response, identity_from_hex_file, identity_from_raw_file,
    identity_hex_file, name_available, online_step, server_challenge_text, ChangeNameError,
    DiscoveryType, IdentityFileError, OnlineStep, ResponseClass, ServerProofError, TargetStep,
};
use pigeon::crypto::{verify_signature, Identity};
use pigeon::hex::{decode_hex, encode_hex};
use pigeon::names::parse_name;
use pigeon::routes::{route_url, Route};

#[test]
fn responses_are_classed_like_reqwest() {
    assert_eq!(classify_response(200), ResponseClass::Success);
    assert_eq!(classify_response(201), ResponseClass::Success);
    assert_eq!(classify_response(400), ResponseClass::Failure);
    assert_eq!(classify_response(503), ResponseClass::Failure);
    assert_eq!(classify_response(302), ResponseClass::Retry);
    assert_eq!(classify_response(101), ResponseClass::Retry);
    assert_eq!(classify_response(600), ResponseClass::Retry);
}

#[test]
fn online_step_compares_keys() {
    let id = Identity::generate();
    assert_eq!(online_step(None, &id), OnlineStep::Register);
    assert_eq!(online_step(Some(id.public_key()), &id), OnlineStep::KeepName);
    let other = Identity::generate();
    assert_eq!(online_step(Some(other.public_key()), &id), OnlineStep::NewIdentity);
}

#[test]
fn only_a_bad_request_means_the_name_is_free() {
    assert!(name_available(&Err(Some(400))));
    assert!(!name_available(&Err(Some(500))));
    assert!(!name_available(&Err(None)));
    assert!(!name_available(&Ok([0; 32])));
}

#[test]
fn target_lookup_steps() {
    assert_eq!(after_local_lookup(true, false), TargetStep::Found(DiscoveryType::MDNS));
    assert_eq!(after_local_lookup(false, true), TargetStep::AskServer);
    assert_eq!(after_local_lookup(false, false), TargetStep::AskAgain);
    assert_eq!(after_server_lookup(true), TargetStep::Found(DiscoveryType::SERVER));
    assert_eq!(after_server_lookup(false), TargetStep::AskAgain);
}

#[test]
fn change_request_signs_the_decoded_challenge() {
    let id = Identity::generate();
    let challenge = [0x5a; 32];
    let text = encode_hex(&challenge);
    let old = parse_name("old").unwrap();
    let new = parse_name("new").unwrap();
    let request = change_request_from_challenge(200, &text, &old, &new, &id).unwrap();
    assert_eq!(request.old_name.as_str(), "old");
    assert_eq!(request.new_name.as_str(), "new");
    let signature: [u8; 64] = decode_hex(&request.hex_signature).unwrap().try_into().unwrap();
    assert_eq!(signature, id.sign(&challenge));
    assert!(verify_signature(&id.public_key(), &challenge, &signature));
}

#[test]
fn change_request_errors() {
    let id = Identity::generate();
    let old = parse_name("old").unwrap();
    let new = parse_name("new").unwrap();
    assert_eq!(change_request_from_challenge(400, "00", &old, &new, &id).err(), Some(ChangeNameError::StartAuthFailed));
    assert_eq!(change_request_from_challenge(200, "0g", &old, &new, &id).err(), Some(ChangeNameError::InvalidChallenge));
}

#[test]
fn change_name_statuses() {
    assert_eq!(change_name_outcome(200), Ok(()));
    assert_eq!(change_name_outcome(401), Err(ChangeNameError::Unauthorized));
    assert_eq!(change_name_outcome(500), Err(ChangeNameError::InternalServerError));
    assert_eq!(change_name_outcome(403), Err(ChangeNameError::Forbidden));
    assert_eq!(change_name_outcome(417), Err(ChangeNameError::ExpectationFailed));
    assert_eq!(change_name_outcome(400), Err(ChangeNameError::Unexpected(400)));
}

#[test]
fn identity_file_round_trip() {
    let id = Identity::generate();
    let text = identity_hex_file(&id);
    assert_eq!(text.len(), 64);
    assert_eq!(identity_from_hex_file(text.as_bytes()).unwrap(), id);
    assert_eq!(identity_from_hex_file(b"zz").unwrap_err(), IdentityFileError::NotHex);
    assert_eq!(identity_from_hex_file(b"0011").unwrap_err(), IdentityFileError::WrongLength);
}

#[test]
fn raw_identity_file() {
    let secret = [4u8; 32];
    assert_eq!(identity_from_raw_file(&secret).unwrap().secret, secret);
    assert_eq!(identity_from_raw_file(&[1, 2, 3]).unwrap_err(), IdentityFileError::WrongLength);
}

#[test]
fn public_key_and_signature_come_from_the_secret() {
    let id = Identity { secret: [9; 32] };
    assert_ne!(id.public_key(), id.secret);
    let message = b"hello";
    let signature = id.sign(message);
    assert!(verify_signature(&id.public_key(), message, &signature));
    assert!(!verify_signature(&id.public_key(), b"hellO", &signature));
    let mut bad = signature;
    bad[0] ^= 1;
    assert!(!verify_signature(&id.public_key(), message, &bad));
}

#[test]
fn server_proof_of_identity() {
    let server = Identity::generate();
    let nonce = [17u8; 32];
    assert_eq!(server_challenge_text(&nonce), "11".repeat(32));
    let answer = encode_hex(&server.sign(&nonce));
    assert_eq!(check_server_proof(&server.public_key(), &nonce, &answer), Ok(true));
    let other = Identity::generate();
    assert_eq!(check_server_proof(&other.public_key(), &nonce, &answer), Ok(false));
    assert_eq!(check_server_proof(&server.public_key(), &nonce, "nothex"), Err(ServerProofError::NotHex));
    assert_eq!(check_server_proof(&server.public_key(), &nonce, "00ff"), Err(ServerProofError::WrongLength));
}

#[test]
fn server_routes() {
    assert_eq!(route_url("https://example.org", Route::Register), "https://example.org/register");
    assert_eq!(route_url("http://h", Route::GetKey), "http://h/getkey");
    assert_eq!(Route::StartAuth.path(), "/start_auth");
    assert_eq!(Route::ChangeName.path(), "/change_name");
    assert_eq!(Route::Auth.path(), "/auth");
}
