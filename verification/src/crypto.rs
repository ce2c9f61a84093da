//! Trusted boundary around the cryptographic primitives: SHA-256 and
//! BLAKE2b-256 digests and Ed25519 signature verification.
//!
//! Each digest or verification result is a pure function of its input bytes,
//! so the result of each outside call is given a name (an uninterpreted spec
//! function) and every contract above speaks of that name.

use vstd::prelude::*;

verus! {

/// The 32-byte SHA-256 digest of a byte sequence.
pub uninterp spec fn sha256_of(data: Seq<u8>) -> Seq<u8>;

/// The 32-byte BLAKE2b-256 digest of a byte sequence.
pub uninterp spec fn blake2_256_of(data: Seq<u8>) -> Seq<u8>;

/// Whether a 64-byte Ed25519 signature verifies over a message under a
/// 32-byte public key. Malformed points or scalars never verify; they are
/// a `false` result, not a fault.
pub uninterp spec fn ed25519_verify_spec(pubkey: Seq<u8>, message: Seq<u8>, signature: Seq<u8>) -> bool;

/// Relies on sha2::Sha256::digest: SHA-256 of the input, always 32 bytes,
/// a function of the input bytes alone.
#[verifier::external_body]
pub(crate) fn sha256(data: &Vec<u8>) -> (r: Vec<u8>)
    ensures
        r@ == sha256_of(data@),
        r@.len() == 32,
{
    <sha2::Sha256 as sha2::Digest>::digest(data.as_slice()).to_vec()
}

/// Relies on blake2::Blake2b256 (BLAKE2b with a 32-byte output): the digest
/// is a function of the input bytes alone and is always 32 bytes.
#[verifier::external_body]
pub(crate) fn blake2_256(data: &Vec<u8>) -> (r: Vec<u8>)
    ensures
        r@ == blake2_256_of(data@),
        r@.len() == 32,
{
    <blake2::Blake2b256 as blake2::Digest>::digest(data.as_slice()).to_vec()
}

/// Relies on sp_core::ed25519::Pair::verify: deterministic Ed25519
/// verification that returns `false` (and never panics) on any malformed
/// key, signature or point.
#[verifier::external_body]
pub(crate) fn ed25519_verify(pubkey: &Vec<u8>, message: &Vec<u8>, signature: &Vec<u8>) -> (r: bool)
    requires
        pubkey@.len() == 32,
        signature@.len() == 64,
    ensures
        r == ed25519_verify_spec(pubkey@, message@, signature@),
{
    let mut pk = [0u8; 32];
    pk.copy_from_slice(pubkey.as_slice());
    let mut sig = [0u8; 64];
    sig.copy_from_slice(signature.as_slice());
    <sp_core::ed25519::Pair as sp_core::Pair>::verify(
        &sp_core::ed25519::Signature::from_raw(sig),
        message.as_slice(),
        &sp_core::ed25519::Public::from_raw(pk),
    )
}

} // verus!
