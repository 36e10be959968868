//! Ed25519 by `ed25519_dalek`, on plain bytes.
//!
//! Everything in this module is believed, not proved. Keys and signatures
//! cross it as bytes; each function decodes what it is given, makes one call
//! of the signature scheme, and hands bytes back. What a call computes is a
//! matter of elliptic-curve arithmetic, so most results only get a name here:
//! they depend on the bytes handed in and on nothing else.

use ed25519_dalek::{Keypair, PublicKey, SecretKey, Signature, Signer, Verifier};
use vstd::prelude::*;

verus! {

/// The public key that belongs to a secret key: what `PublicKey::from` gives
/// for the `SecretKey` with these bytes.
pub uninterp spec fn public_key_of(secret: Seq<u8>) -> Seq<u8>;

/// Whether `PublicKey::from_bytes` accepts the bytes: there are 32 of them,
/// and they are the compressed form of a point of the curve.
pub uninterp spec fn is_public_key(bytes: Seq<u8>) -> bool;

/// What `Keypair::try_sign` gives for the keypair with these bytes and a
/// message: the bytes of the signature, or nothing if signing fails.
pub uninterp spec fn signature_by(keypair: Seq<u8>, message: Seq<u8>) -> Option<Seq<u8>>;

/// Whether `PublicKey::verify` accepts the signature on the message, for the
/// public key and the signature with these bytes. False where either of them
/// does not decode.
pub uninterp spec fn verifies(public_key: Seq<u8>, message: Seq<u8>, signature: Seq<u8>) -> bool;

/// Whether `Keypair::from_bytes` accepts the bytes: 64 of them, a secret key
/// followed by a public key that decodes. The two halves need not belong
/// together.
pub open spec fn is_keypair(bytes: Seq<u8>) -> bool {
    bytes.len() == 64 && is_public_key(bytes.subrange(32, 64))
}

/// Whether `Signature::from_bytes` accepts the bytes: 64 of them, with the
/// three highest bits of the last one unset.
pub open spec fn is_signature(bytes: Seq<u8>) -> bool {
    bytes.len() == 64 && bytes[63] < 32
}

/// `Keypair::to_bytes` of the keypair made of a secret key and the public
/// key derived from it by `PublicKey::from`: the secret key, then the public
/// key. `SecretKey::from_bytes` accepts any 32 bytes.
#[verifier::external_body]
pub(crate) fn keypair_of_seed(seed: &[u8; 32]) -> (keypair: [u8; 64])
    ensures
        keypair@ == seed@ + public_key_of(seed@),
{
    let secret = SecretKey::from_bytes(seed).unwrap();
    let public = PublicKey::from(&secret);
    Keypair { secret, public }.to_bytes()
}

/// `Keypair::from_bytes`: whether the bytes decode as a keypair.
#[verifier::external_body]
pub(crate) fn decodes_as_keypair(bytes: &[u8]) -> (accepted: bool)
    ensures
        accepted == is_keypair(bytes@),
{
    Keypair::from_bytes(bytes).is_ok()
}

/// `PublicKey::from_bytes`: whether the bytes decode as a public key.
#[verifier::external_body]
pub(crate) fn decodes_as_public_key(bytes: &[u8]) -> (accepted: bool)
    ensures
        accepted == is_public_key(bytes@),
        accepted ==> bytes@.len() == 32,
{
    PublicKey::from_bytes(bytes).is_ok()
}

/// `Signature::from_bytes`: whether the bytes decode as a signature.
#[verifier::external_body]
pub(crate) fn decodes_as_signature(bytes: &[u8]) -> (accepted: bool)
    ensures
        accepted == is_signature(bytes@),
{
    Signature::from_bytes(bytes).is_ok()
}

/// `Keypair::try_sign`: the signature of the keypair on the message.
#[verifier::external_body]
pub(crate) fn sign_with(keypair: &[u8], message: &[u8]) -> (signature: Option<[u8; 64]>)
    requires
        is_keypair(keypair@),
    ensures
        match signature {
            Some(bytes) => signature_by(keypair@, message@) == Some(bytes@),
            None => signature_by(keypair@, message@) is None,
        },
{
    match Keypair::from_bytes(keypair) {
        Ok(pair) => match pair.try_sign(message) {
            Ok(signature) => Some(signature.to_bytes()),
            Err(_) => None,
        },
        Err(_) => None,
    }
}

/// `PublicKey::verify`: whether the signature on the message holds under the
/// public key.
#[verifier::external_body]
pub(crate) fn check_signature(public_key: &[u8], message: &[u8], signature: &[u8]) -> (valid: bool)
    ensures
        valid == verifies(public_key@, message@, signature@),
{
    match (PublicKey::from_bytes(public_key), Signature::from_bytes(signature)) {
        (Ok(key), Ok(signature)) => key.verify(message, &signature).is_ok(),
        _ => false,
    }
}

} // verus!
