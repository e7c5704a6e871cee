//! Ed25519 signatures over request bytes.

use vstd::prelude::*;
use crate::config::SigningSeed;

verus! {

/// The signature that Ed25519 gives to `message` under the key expanded from
/// `seed`. Signing is deterministic: the nonce is a hash of key and message.
pub uninterp spec fn ed25519_signature(seed: Seq<u8>, message: Seq<u8>) -> Seq<u8>;

/// Whether the verification key that belongs to `seed` accepts `signature`
/// for `message`.
pub uninterp spec fn ed25519_accepts(seed: Seq<u8>, signature: Seq<u8>, message: Seq<u8>) -> bool;

/// Signs with `ed25519_zebra::SigningKey::sign`, under the key that
/// `SigningKey::from` expands from the seed.
///
/// Trusted: the result is the 64 bytes `R || s` of the signature, and the
/// verification key of the same seed accepts it for the same message (with
/// `R = [r]B` and `s = r + k a` the check `[8][s]B = [8]R + [8][k]A` holds).
#[verifier::external_body]
pub(crate) fn sign(seed: &[u8; 32], message: &[u8]) -> (signature: Vec<u8>)
    ensures
        signature@ == ed25519_signature(seed@, message@),
        signature@.len() == 64,
        ed25519_accepts(seed@, signature@, message@),
{
    let signature: [u8; 64] = ed25519_zebra::SigningKey::from(*seed).sign(message).into();
    signature.to_vec()
}

/// Verifies with `ed25519_zebra::VerificationKey::verify`, under the
/// verification key of the signing key that belongs to the seed.
///
/// Trusted: the answer is a function of seed, signature and message alone.
#[verifier::external_body]
pub(crate) fn verify(seed: &[u8; 32], signature: &[u8; 64], message: &[u8]) -> (accepted: bool)
    ensures
        accepted == ed25519_accepts(seed@, signature@, message@),
{
    let key = ed25519_zebra::VerificationKey::from(&ed25519_zebra::SigningKey::from(*seed));
    key.verify(&ed25519_zebra::Signature::from(*signature), message).is_ok()
}

/// Draws a fresh seed as `ed25519_zebra::SigningKey::new` does, from
/// `rand::thread_rng`. Nothing is known of the bytes.
#[verifier::external_body]
pub(crate) fn random_seed() -> (seed: [u8; 32]) {
    ed25519_zebra::SigningKey::new(rand::thread_rng()).into()
}

/// The number of bytes in a signature.
pub const SIGNATURE_LENGTH: usize = 64;

/// Copies the bytes of a signature into an array.
fn signature_array(signature: &[u8]) -> (array: [u8; 64])
    requires
        signature@.len() == 64,
    ensures
        array@ == signature@,
{
    let mut array = [0u8; 64];
    let mut i: usize = 0;
    while i < 64
        invariant
            i <= 64,
            signature@.len() == 64,
            array@.len() == 64,
            forall|j: int| 0 <= j < i ==> array@[j] == signature@[j],
        decreases 64 - i,
    {
        array[i] = signature[i];
        i += 1;
    }
    assert(array@ =~= signature@);
    array
}

/// Signs `message` under `key`. The signature has 64 bytes, and the key
/// accepts it for the message.
pub fn sign_message(key: &SigningSeed, message: &[u8]) -> (signature: Vec<u8>)
    ensures
        signature@ == ed25519_signature(key@, message@),
        signature@.len() == 64,
        ed25519_accepts(key@, signature@, message@),
{
    sign(&key.bytes, message)
}

/// Whether `signature` has the length of a signature and `key` accepts it
/// for `message`.
pub fn verify_message(key: &SigningSeed, signature: &[u8], message: &[u8]) -> (accepted: bool)
    ensures
        accepted == (signature@.len() == 64 && ed25519_accepts(key@, signature@, message@)),
{
    if signature.len() != SIGNATURE_LENGTH {
        return false;
    }
    let array = signature_array(signature);
    verify(&key.bytes, &array, message)
}

} // verus!
