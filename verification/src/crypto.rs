//! Ed25519 and SHA-512 primitives, taken from `ed25519-dalek` and `sha2`
//! behind trusted wrappers.
//!
//! Both libraries compute pure functions of their inputs, so each result is
//! given a name (an uninterpreted spec function) and the wrappers relate the
//! returned values to those names.

use vstd::prelude::*;

use ed25519_dalek::Signer;
use sha2::Digest;

verus! {

/// Length in bytes of an Ed25519 public key.
pub const PUBLIC_KEY_LENGTH: usize = 32;

/// Length in bytes of an Ed25519 signature.
pub const SIGNATURE_LENGTH: usize = 64;

/// Whether 32 bytes decode to a valid Ed25519 public key
/// (`ed25519_dalek::VerifyingKey::from_bytes` succeeds on them).
pub uninterp spec fn ed25519_valid_pubkey(pubkey: Seq<u8>) -> bool;

/// Whether strict Ed25519 verification accepts `sig` as a signature over
/// `msg` under `pubkey` (`ed25519_dalek::VerifyingKey::verify_strict`).
pub uninterp spec fn ed25519_verifies(pubkey: Seq<u8>, msg: Seq<u8>, sig: Seq<u8>) -> bool;

/// The public key derived from a 32-byte Ed25519 seed
/// (`ed25519_dalek::SigningKey::verifying_key`).
pub uninterp spec fn ed25519_pubkey_of(seed: Seq<u8>) -> Seq<u8>;

/// The deterministic RFC 8032 signature over `msg` by the key with seed
/// `seed` (`ed25519_dalek::SigningKey::sign`).
pub uninterp spec fn ed25519_sign(seed: Seq<u8>, msg: Seq<u8>) -> Seq<u8>;

/// The SHA-512 digest of `input` (`sha2::Sha512::digest`).
pub uninterp spec fn sha512_of(input: Seq<u8>) -> Seq<u8>;

/// The SHA-256 digest of `input` (`sha2::Sha256::digest`).
pub uninterp spec fn sha256_of(input: Seq<u8>) -> Seq<u8>;

/// Outcome of one strict Ed25519 signature check.
pub enum SigCheck {
    /// The public key bytes do not decode to a curve point.
    BadKey,
    /// The key is valid but the signature was rejected.
    Rejected,
    /// The signature verifies.
    Valid,
}

/// Relies on `ed25519_dalek::VerifyingKey::from_bytes` (whose success depends
/// on the key bytes alone) and `VerifyingKey::verify_strict` (a deterministic
/// function of key, message and signature); `Signature::from_bytes` is the
/// infallible 64-byte conversion.
#[verifier::external_body]
pub fn ed25519_check(pubkey: &[u8; 32], msg: &[u8], sig: &[u8; 64]) -> (r: SigCheck)
    ensures
        r is BadKey <==> !ed25519_valid_pubkey(pubkey@),
        ed25519_valid_pubkey(pubkey@) ==> ((r is Valid) <==> ed25519_verifies(
            pubkey@,
            msg@,
            sig@,
        )),
{
    match ed25519_dalek::VerifyingKey::from_bytes(pubkey) {
        Err(_) => SigCheck::BadKey,
        Ok(key) => {
            let signature = ed25519_dalek::Signature::from_bytes(sig);
            match key.verify_strict(msg, &signature) {
                Ok(()) => SigCheck::Valid,
                Err(_) => SigCheck::Rejected,
            }
        },
    }
}

/// Relies on `ed25519_dalek::SigningKey::from_bytes` and `verifying_key`: the
/// public key is a function of the seed alone, and its compressed encoding
/// always decodes back to a valid key.
#[verifier::external_body]
pub fn derive_public_key(seed: &[u8; 32]) -> (pubkey: [u8; 32])
    ensures
        pubkey@ == ed25519_pubkey_of(seed@),
        pubkey@.len() == 32,
        ed25519_valid_pubkey(pubkey@),
{
    ed25519_dalek::SigningKey::from_bytes(seed).verifying_key().to_bytes()
}

/// Relies on `ed25519_dalek::SigningKey::sign`: RFC 8032 Ed25519 signing is a
/// deterministic function of the seed and the message, and `verify_strict`
/// accepts every signature the same key produced.
#[verifier::external_body]
pub fn sign_message(seed: &[u8; 32], msg: &[u8]) -> (sig: [u8; 64])
    ensures
        sig@ == ed25519_sign(seed@, msg@),
        sig@.len() == 64,
        ed25519_verifies(ed25519_pubkey_of(seed@), msg@, sig@),
{
    ed25519_dalek::SigningKey::from_bytes(seed).sign(msg).to_bytes()
}

/// Relies on `sha2::Sha512::digest`: the digest is a function of the input
/// bytes alone, 64 bytes long.
#[verifier::external_body]
pub fn sha512(input: &[u8]) -> (digest: [u8; 64])
    ensures
        digest@ == sha512_of(input@),
        digest@.len() == 64,
{
    sha2::Sha512::digest(input).into()
}

/// Relies on `sha2::Sha256::digest`: the digest is a function of the input
/// bytes alone, 32 bytes long.
#[verifier::external_body]
pub fn sha256(input: &[u8]) -> (digest: [u8; 32])
    ensures
        digest@ == sha256_of(input@),
        digest@.len() == 32,
{
    sha2::Sha256::digest(input).into()
}

} // verus!
