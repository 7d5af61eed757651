//! The requests that clients send to the name server, and the header that announces a file.
use vstd::prelude::*;
use crate::names::Name;
use crate::text::BoundedString;

verus! {

/// Asks the server to keep `publickey` under `name`.
pub struct RegisterRequest {
    pub name: Name,
    pub publickey: [u8; 32],
}

/// Asks the server for the public key kept under `target`.
pub struct GetKeyRequest {
    pub target: Name,
}

/// Announces a file: its size in bytes, its name and who sends it.
pub struct FileHeader {
    pub size: u64,
    pub filename: BoundedString<256>,
    pub sender_name: Name,
}

/// Asks the server to move the key kept under `old_name` to `new_name`, proved by a
/// signature (as hexadecimal text) over the challenge that the server handed out.
pub struct ChangeNameRequest {
    pub old_name: Name,
    pub new_name: Name,
    pub hex_signature: String,
}

/// Asks the server for a challenge to prove that one holds the key of `name`.
pub struct AuthRequest {
    pub name: Name,
}

} // verus!
