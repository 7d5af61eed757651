//! Pigeon's verified core: the name server's registry and its challenge–response for
//! renaming, the client's side of that protocol, user names and their files, the
//! identity file, the bytes that peers exchange and the decisions of a file transfer.
pub mod bytes;
pub mod client;
pub mod console;
pub mod crypto;
pub mod directory;
pub mod hex;
pub mod messages;
pub mod names;
pub mod registry;
pub mod routes;
pub mod text;
pub mod transfer;
pub mod wire;
