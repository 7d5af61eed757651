//! Ed25519 keys and signatures, through `iroh`, and fresh random bytes, through `rand`.
use vstd::prelude::*;

verus! {

/// The public key that `iroh::SecretKey::public` derives from the 32 secret bytes `secret`.
pub uninterp spec fn ed25519_public_key(secret: Seq<u8>) -> Seq<u8>;

/// The signature that `iroh::SecretKey::sign` makes with the secret bytes `secret` over `message`.
pub uninterp spec fn ed25519_signature(secret: Seq<u8>, message: Seq<u8>) -> Seq<u8>;

/// Whether `iroh::PublicKey::verify` accepts `signature` over `message` for the key whose
/// bytes are `key` (false where those bytes are not a valid key).
pub uninterp spec fn ed25519_accepts(key: Seq<u8>, message: Seq<u8>, signature: Seq<u8>) -> bool;

/// Calls `iroh::SecretKey::public` on the key made from `secret` by `SecretKey::from_bytes`.
#[verifier::external_body]
fn secret_public(secret: &[u8; 32]) -> (public: [u8; 32])
    ensures
        public@ == ed25519_public_key(secret@),
{
    *iroh::SecretKey::from_bytes(secret).public().as_bytes()
}

/// Calls `iroh::SecretKey::sign` on the key made from `secret` by `SecretKey::from_bytes`.
#[verifier::external_body]
fn secret_sign(secret: &[u8; 32], message: &[u8]) -> (signature: [u8; 64])
    ensures
        signature@ == ed25519_signature(secret@, message@),
{
    iroh::SecretKey::from_bytes(secret).sign(message).to_bytes()
}

/// Calls `iroh::PublicKey::verify` with the key that `PublicKey::from_bytes` makes of `key`
/// and the signature that `Signature::from_bytes` makes of `signature`; bytes that
/// `from_bytes` refuses as a key verify nothing.
#[verifier::external_body]
fn public_verify(key: &[u8; 32], message: &[u8], signature: &[u8; 64]) -> (ok: bool)
    ensures
        ok == ed25519_accepts(key@, message@, signature@),
{
    match iroh::PublicKey::from_bytes(key) {
        Ok(public) => public.verify(message, &iroh::Signature::from_bytes(signature)).is_ok(),
        Err(_) => false,
    }
}

/// Calls `rand::RngCore::fill_bytes` on the thread's generator (`rand::rng`); nothing is
/// known of the bytes that come back.
#[verifier::external_body]
fn random_32_bytes() -> [u8; 32] {
    let mut bytes = [0u8; 32];
    rand::RngCore::fill_bytes(&mut rand::rng(), &mut bytes);
    bytes
}

/// Calls `iroh::SecretKey::generate`, which draws a random key; nothing is known of it.
#[verifier::external_body]
fn generate_secret() -> [u8; 32] {
    iroh::SecretKey::generate().to_bytes()
}

/// A secret key, kept as its 32 bytes.
#[derive(Clone, Copy, Debug, PartialEq, Eq)]
pub struct Identity {
    pub secret: [u8; 32],
}

impl Identity {
    /// A new random identity (`SecretKey::generate`).
    pub fn generate() -> (id: Identity) {
        Identity { secret: generate_secret() }
    }

    /// The public key of this identity.
    pub fn public_key(&self) -> (key: [u8; 32])
        ensures
            key@ == ed25519_public_key(self.secret@),
    {
        secret_public(&self.secret)
    }

    /// This identity's signature over `message`.
    pub fn sign(&self, message: &[u8]) -> (signature: [u8; 64])
        ensures
            signature@ == ed25519_signature(self.secret@, message@),
    {
        secret_sign(&self.secret, message)
    }
}

/// Whether `signature` over `message` verifies under the public key `key`.
pub fn verify_signature(key: &[u8; 32], message: &[u8], signature: &[u8; 64]) -> (ok: bool)
    ensures
        ok == ed25519_accepts(key@, message@, signature@),
{
    public_verify(key, message, signature)
}

/// 32 fresh random bytes, for a challenge or a nonce.
pub fn fresh_nonce() -> (bytes: [u8; 32]) {
    random_32_bytes()
}

/// The 64 bytes of `v` as an array.
pub fn signature_array(v: &Vec<u8>) -> (a: [u8; 64])
    requires
        v@.len() == 64,
    ensures
        a@ == v@,
{
    let mut a = [0u8; 64];
    let mut i: usize = 0;
    while i < 64
        invariant
            v@.len() == 64,
            i <= 64,
            forall|j: int| 0 <= j < i ==> a@[j] == v@[j],
        decreases 64 - i,
    {
        a[i] = v[i];
        i = i + 1;
    }
    assert(a@ =~= v@);
    a
}

/// The 32 bytes of `v` as an array.
pub fn key_array(v: &Vec<u8>) -> (a: [u8; 32])
    requires
        v@.len() == 32,
    ensures
        a@ == v@,
{
    let mut a = [0u8; 32];
    let mut i: usize = 0;
    while i < 32
        invariant
            v@.len() == 32,
            i <= 32,
            forall|j: int| 0 <= j < i ==> a@[j] == v@[j],
        decreases 32 - i,
    {
        a[i] = v[i];
        i = i + 1;
    }
    assert(a@ =~= v@);
    a
}

} // verus!
