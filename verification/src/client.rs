//! The client's decisions around the name server: how answers are classed, what to do
//! once online, how a name change is proved, and how the identity is kept on disk.
use vstd::prelude::*;
use vstd::string::StringSliceAdditionalSpecFns;
use vstd::utf8::encode_utf8;
use crate::crypto::{ed25519_accepts, ed25519_public_key, ed25519_signature, key_array, signature_array, verify_signature, Identity};
use crate::hex::{decode_hex, decode_hex_bytes, encode_hex, hex_bytes, hex_text, lemma_hex_round_trip};
use crate::messages::ChangeNameRequest;
use crate::names::Name;

verus! {

/// How the client treats an HTTP answer from the server.
#[derive(Clone, Copy, Debug, PartialEq, Eq)]
pub enum ResponseClass {
    /// A client or server error (4xx, 5xx): the request failed.
    Failure,
    /// A success (2xx).
    Success,
    /// Anything else: the request is sent again.
    Retry,
}

/// The class of the HTTP status `code`, as `reqwest`'s `error_for_status` and
/// `StatusCode::is_success` draw the lines.
pub open spec fn response_class(code: u16) -> ResponseClass {
    if 400 <= code <= 599 {
        ResponseClass::Failure
    } else if 200 <= code <= 299 {
        ResponseClass::Success
    } else {
        ResponseClass::Retry
    }
}

/// Classes the HTTP status `code` of an answer to a registration or a key request.
pub fn classify_response(code: u16) -> (c: ResponseClass)
    ensures
        c == response_class(code),
        400 <= code <= 599 <==> c == ResponseClass::Failure,
        200 <= code <= 299 <==> c == ResponseClass::Success,
        (code < 200 || 300 <= code < 400 || 600 <= code) <==> c == ResponseClass::Retry,
{
    if 400 <= code && code <= 599 {
        ResponseClass::Failure
    } else if 200 <= code && code <= 299 {
        ResponseClass::Success
    } else {
        ResponseClass::Retry
    }
}

/// What the client does once it has asked the server for the key of its own name.
#[derive(Clone, Copy, Debug, PartialEq, Eq)]
pub enum OnlineStep {
    /// The name is not known to the server (or the lookup failed): register it.
    Register,
    /// The server holds this identity's key under the name: keep using the name online.
    KeepName,
    /// The server holds another key under the name: choose a new name and register it.
    NewIdentity,
}

/// The step after the lookup of the client's own name, which found `server_key` (or nothing).
pub fn online_step(server_key: Option<[u8; 32]>, identity: &Identity) -> (step: OnlineStep)
    ensures
        step == match server_key {
            None => OnlineStep::Register,
            Some(k) => if k@ == ed25519_public_key(identity.secret@) {
                OnlineStep::KeepName
            } else {
                OnlineStep::NewIdentity
            },
        },
{
    match server_key {
        None => OnlineStep::Register,
        Some(k) => {
            let mine = identity.public_key();
            let mut same = true;
            let mut i: usize = 0;
            while i < 32
                invariant
                    i <= 32,
                    same == (forall|j: int| 0 <= j < i ==> k@[j] == mine@[j]),
                decreases 32 - i,
            {
                if k[i] != mine[i] {
                    same = false;
                }
                i = i + 1;
            }
            if same {
                assert(k@ =~= mine@);
            }
            if same {
                OnlineStep::KeepName
            } else {
                OnlineStep::NewIdentity
            }
        },
    }
}

/// Whether a name is free, judged by the lookup of its key: it is free exactly when the
/// server refused the lookup with 400 (not registered).
pub fn name_available(lookup: &Result<[u8; 32], Option<u16>>) -> (free: bool)
    ensures
        free == (lookup matches Err(Some(code)) && code == 400),
{
    match lookup {
        Err(Some(code)) => *code == 400,
        _ => false,
    }
}

/// Where the address of a peer was found.
#[derive(Clone, Copy, Debug, PartialEq, Eq)]
pub enum DiscoveryType {
    /// On the local network.
    MDNS,
    /// Through the name server.
    SERVER,
}

/// What to do next while looking up the peer to send to.
#[derive(Clone, Copy, Debug, PartialEq, Eq)]
pub enum TargetStep {
    /// The peer was found.
    Found(DiscoveryType),
    /// Ask the name server for the peer's key.
    AskServer,
    /// Ask the user for a name again.
    AskAgain,
}

/// The step after looking for the peer among those found on the local network.
pub fn after_local_lookup(found: bool, use_server: bool) -> (step: TargetStep)
    ensures
        step == if found {
            TargetStep::Found(DiscoveryType::MDNS)
        } else if use_server {
            TargetStep::AskServer
        } else {
            TargetStep::AskAgain
        },
{
    if found {
        TargetStep::Found(DiscoveryType::MDNS)
    } else if use_server {
        TargetStep::AskServer
    } else {
        TargetStep::AskAgain
    }
}

/// The step after asking the name server for the peer's key.
pub fn after_server_lookup(found: bool) -> (step: TargetStep)
    ensures
        step == if found {
            TargetStep::Found(DiscoveryType::SERVER)
        } else {
            TargetStep::AskAgain
        },
{
    if found {
        TargetStep::Found(DiscoveryType::SERVER)
    } else {
        TargetStep::AskAgain
    }
}

/// Why a change of name failed.
#[derive(Clone, Copy, Debug, PartialEq, Eq)]
pub enum ChangeNameError {
    /// The server did not hand out a challenge.
    StartAuthFailed,
    /// The challenge was not hexadecimal text.
    InvalidChallenge,
    /// 401: no challenge was started for the old name.
    Unauthorized,
    /// 500.
    InternalServerError,
    /// 403: the signature did not verify.
    Forbidden,
    /// 417.
    ExpectationFailed,
    /// Any other status but 200.
    Unexpected(u16),
}

/// The request that proves, with `identity`, the challenge that `/start_auth` answered
/// with status `start_status` and text `challenge_text`.
pub fn change_request_from_challenge(
    start_status: u16,
    challenge_text: &str,
    old_name: &Name,
    new_name: &Name,
    identity: &Identity,
) -> (res: Result<ChangeNameRequest, ChangeNameError>)
    ensures
        start_status != 200 ==> res == Err::<ChangeNameRequest, ChangeNameError>(
            ChangeNameError::StartAuthFailed,
        ),
        start_status == 200 && hex_bytes(challenge_text.spec_bytes()) is None ==> res == Err::<
            ChangeNameRequest,
            ChangeNameError,
        >(ChangeNameError::InvalidChallenge),
        start_status == 200 && hex_bytes(challenge_text.spec_bytes()) is Some ==> (res matches Ok(
            r,
        ) && r.old_name@ == old_name@ && r.new_name@ == new_name@ && r.hex_signature@ == hex_text(
            ed25519_signature(identity.secret@, hex_bytes(challenge_text.spec_bytes())->0),
        )),
{
    if start_status != 200 {
        return Err(ChangeNameError::StartAuthFailed);
    }
    let challenge = match decode_hex(challenge_text) {
        Err(_) => {
            return Err(ChangeNameError::InvalidChallenge);
        },
        Ok(bytes) => bytes,
    };
    let signature = identity.sign(challenge.as_slice());
    Ok(
        ChangeNameRequest {
            old_name: old_name.duplicate(),
            new_name: new_name.duplicate(),
            hex_signature: encode_hex(signature.as_slice()),
        },
    )
}

/// What the status of the answer to `/change_name` means.
pub open spec fn change_outcome(code: u16) -> Result<(), ChangeNameError> {
    if code == 401 {
        Err(ChangeNameError::Unauthorized)
    } else if code == 500 {
        Err(ChangeNameError::InternalServerError)
    } else if code == 403 {
        Err(ChangeNameError::Forbidden)
    } else if code == 417 {
        Err(ChangeNameError::ExpectationFailed)
    } else if code == 200 {
        Ok(())
    } else {
        Err(ChangeNameError::Unexpected(code))
    }
}

/// Reads the status of the answer to `/change_name`.
pub fn change_name_outcome(code: u16) -> (res: Result<(), ChangeNameError>)
    ensures
        res == change_outcome(code),
{
    if code == 401 {
        Err(ChangeNameError::Unauthorized)
    } else if code == 500 {
        Err(ChangeNameError::InternalServerError)
    } else if code == 403 {
        Err(ChangeNameError::Forbidden)
    } else if code == 417 {
        Err(ChangeNameError::ExpectationFailed)
    } else if code == 200 {
        Ok(())
    } else {
        Err(ChangeNameError::Unexpected(code))
    }
}

/// Why the contents of an identity file are not a secret key.
#[derive(Clone, Copy, Debug, PartialEq, Eq)]
pub enum IdentityFileError {
    /// The file is not hexadecimal text.
    NotHex,
    /// The file does not hold exactly 32 bytes.
    WrongLength,
}

/// The secret key that an identity file in hexadecimal form holds.
pub open spec fn identity_from_hex(contents: Seq<u8>) -> Result<Seq<u8>, IdentityFileError> {
    match hex_bytes(contents) {
        None => Err(IdentityFileError::NotHex),
        Some(bytes) => if bytes.len() == 32 {
            Ok(bytes)
        } else {
            Err(IdentityFileError::WrongLength)
        },
    }
}

/// Reads an identity file kept as hexadecimal text.
pub fn identity_from_hex_file(contents: &[u8]) -> (res: Result<Identity, IdentityFileError>)
    ensures
        match identity_from_hex(contents@) {
            Ok(secret) => res matches Ok(id) && id.secret@ == secret,
            Err(e) => res == Err::<Identity, IdentityFileError>(e),
        },
{
    match decode_hex_bytes(contents) {
        Err(_) => Err(IdentityFileError::NotHex),
        Ok(bytes) => {
            if bytes.len() == 32 {
                Ok(Identity { secret: key_array(&bytes) })
            } else {
                Err(IdentityFileError::WrongLength)
            }
        },
    }
}

/// An identity as it is written to its file: the secret key as hexadecimal text.
pub fn identity_hex_file(identity: &Identity) -> (text: String)
    ensures
        text@ == hex_text(identity.secret@),
{
    encode_hex(identity.secret.as_slice())
}

/// Reads an identity file that holds the 32 bytes of the secret key as they are.
pub fn identity_from_raw_file(contents: &[u8]) -> (res: Result<Identity, IdentityFileError>)
    ensures
        contents@.len() == 32 ==> (res matches Ok(id) && id.secret@ == contents@),
        contents@.len() != 32 ==> res == Err::<Identity, IdentityFileError>(
            IdentityFileError::WrongLength,
        ),
{
    if contents.len() == 32 {
        let mut secret = [0u8; 32];
        let mut i: usize = 0;
        while i < 32
            invariant
                contents@.len() == 32,
                i <= 32,
                forall|j: int| 0 <= j < i ==> secret@[j] == contents@[j],
            decreases 32 - i,
        {
            secret[i] = contents[i];
            i = i + 1;
        }
        assert(secret@ =~= contents@);
        Ok(Identity { secret })
    } else {
        Err(IdentityFileError::WrongLength)
    }
}

/// What is read back from an identity file in hexadecimal form is the key written to it.
pub proof fn lemma_identity_file_round_trip(identity: Identity)
    ensures
        identity_from_hex(encode_utf8(hex_text(identity.secret@))) == Ok::<
            Seq<u8>,
            IdentityFileError,
        >(identity.secret@),
{
    lemma_hex_round_trip(identity.secret@);
}

/// Why the server's proof of identity could not be judged.
#[derive(Clone, Copy, Debug, PartialEq, Eq)]
pub enum ServerProofError {
    /// The answer is not hexadecimal text.
    NotHex,
    /// The answer is not 64 bytes long.
    WrongLength,
}

/// The text sent to the server to sign: the nonce as hexadecimal text.
pub fn server_challenge_text(nonce: &[u8; 32]) -> (text: String)
    ensures
        text@ == hex_text(nonce@),
{
    encode_hex(nonce.as_slice())
}

/// Whether the server proved that it holds `expected_key`: its answer, as hexadecimal
/// text, must be a signature over `nonce` that verifies under that key.
pub fn check_server_proof(expected_key: &[u8; 32], nonce: &[u8; 32], answer: &str) -> (res: Result<
    bool,
    ServerProofError,
>)
    ensures
        match hex_bytes(answer.spec_bytes()) {
            None => res == Err::<bool, ServerProofError>(ServerProofError::NotHex),
            Some(signature) => if signature.len() == 64 {
                res == Ok::<bool, ServerProofError>(
                    ed25519_accepts(expected_key@, nonce@, signature),
                )
            } else {
                res == Err::<bool, ServerProofError>(ServerProofError::WrongLength)
            },
        },
{
    match decode_hex(answer) {
        Err(_) => Err(ServerProofError::NotHex),
        Ok(bytes) => {
            if bytes.len() == 64 {
                let signature = signature_array(&bytes);
                Ok(verify_signature(expected_key, nonce.as_slice(), &signature))
            } else {
                Err(ServerProofError::WrongLength)
            }
        },
    }
}


/// Every client or server error fails, every success succeeds, and only the other
/// statuses are tried again: for every HTTP status, the class is failure exactly for
/// 400 to 599, success exactly for 200 to 299, and retry exactly otherwise.
pub proof fn lemma_response_classes(code: u16)
    ensures
        (response_class(code) == ResponseClass::Failure) <==> (400 <= code && code <= 599),
        (response_class(code) == ResponseClass::Success) <==> (200 <= code && code <= 299),
        (response_class(code) == ResponseClass::Retry) <==> (code < 200 || (300 <= code && code
            < 400) || 600 <= code),
{
}

} // verus!
