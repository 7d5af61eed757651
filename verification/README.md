# pigeon

File sharing between peers, on the local network or through a name server that maps
user names to public keys. This crate is the verified core of that tool, written in
Verus; `app/` holds the program around it (terminal, files, network).

- `src/registry.rs`: the name server's registry and its challenge–response for renaming,
  with the laws that tie registration, lookup and renaming together.
- `src/client.rs`: the client's side: answers from the server, the signed rename
  request, the identity file, the server's proof of identity.
- `src/names.rs`, `src/text.rs`: user names, trimming, bounded strings, the name file.
- `src/wire.rs`, `src/bytes.rs`, `src/transfer.rs`: what peers send each other and
  the decisions of a file transfer.
- `src/directory.rs`: a table keyed by user name, each name at most once.
- `src/console.rs`: printing held back while the user types.
- `src/hex.rs`, `src/crypto.rs`: hexadecimal text (`hex`), Ed25519 and randomness
  (`iroh`, `rand`), behind small trusted wrappers.

`app/` calls `async-compression`, `tqdm`, `axum-server` and `iroh-mdns-address-lookup` as
the original does, but they are not in `Cargo.toml`: together with the other crates they
put the lock over the 400 packages that the build here allows, so `app/` does not
type-check. The client's root certificate `rootCA.pem` is read at run time.
