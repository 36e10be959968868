//! Ed25519 key generation, signing and verification on byte buffers, with a
//! status code for every way in which a call can end.
//!
//! An argument that may be absent is an `Option`; an absent argument is
//! reported, never dereferenced.

use crate::dalek::{
    check_signature, decodes_as_keypair, decodes_as_public_key, decodes_as_signature, is_keypair,
    is_public_key, is_signature, keypair_of_seed, public_key_of, sign_with, signature_by,
    verifies,
};
use vstd::prelude::*;
use vstd::slice::slice_subrange;

verus! {

/// Status code of a function call
#[derive(Clone, Copy, Debug, PartialEq, Eq, Hash, Structural)]
pub enum Ed25519Result {
    /// Success
    Success,
    /// an argument passed into function is missing
    NullArgument,
    /// decoding a keypair from bytes failed
    KeypairFromBytesFailed,
    /// decoding a public key from bytes failed
    PublicKeyFromBytesFailed,
    /// decoding a signature from bytes failed
    SignatureFromBytesFailed,
    /// sign operation failed
    SignFailed,
    /// signature verification failed
    VerificationFailed,
}

/// How signing ends, from what its steps gave: whether the keypair decoded,
/// whether a signature came out, and whether that signature then verified.
/// The first step that failed decides.
pub open spec fn signing_status(decoded: bool, signed: bool, verified: bool) -> Ed25519Result {
    if !decoded {
        Ed25519Result::KeypairFromBytesFailed
    } else if !signed {
        Ed25519Result::SignFailed
    } else if !verified {
        Ed25519Result::VerificationFailed
    } else {
        Ed25519Result::Success
    }
}

/// How verifying ends, from what its steps gave: whether the public key
/// decoded, whether the signature decoded, and whether the signature holds.
/// The first step that failed decides.
pub open spec fn verifying_status(
    key_decoded: bool,
    signature_decoded: bool,
    verified: bool,
) -> Ed25519Result {
    if !key_decoded {
        Ed25519Result::PublicKeyFromBytesFailed
    } else if !signature_decoded {
        Ed25519Result::SignatureFromBytesFailed
    } else if !verified {
        Ed25519Result::VerificationFailed
    } else {
        Ed25519Result::Success
    }
}

/// How signing `message` with `keypair` ends.
pub open spec fn status_of_signing(keypair: Seq<u8>, message: Seq<u8>) -> Ed25519Result {
    let signature = signature_by(keypair, message);
    signing_status(
        is_keypair(keypair),
        signature is Some,
        signature is Some && verifies(keypair.subrange(32, 64), message, signature.unwrap()),
    )
}

/// How verifying `signature` on `message` under `public_key` ends.
pub open spec fn status_of_verifying(
    signature: Seq<u8>,
    public_key: Seq<u8>,
    message: Seq<u8>,
) -> Ed25519Result {
    verifying_status(
        is_public_key(public_key),
        is_signature(signature),
        verifies(public_key, message, signature),
    )
}

/// Generate a keypair using the provided seed: the seed, which serves as the
/// secret key, followed by the public key that belongs to it.
///
/// Nothing is written when either argument is missing.
pub fn ed25519_keypair_from_seed(keypair_out: Option<&mut [u8; 64]>, seed: Option<&[u8; 32]>)
    ensures
        match (keypair_out, seed) {
            (Some(out), Some(seed)) => final(out)@ == seed@ + public_key_of(seed@),
            (Some(out), None) => *final(out) == *out,
            (None, _) => true,
        },
{
    match (keypair_out, seed) {
        (Some(out), Some(seed)) => {
            *out = keypair_of_seed(seed);
        },
        _ => {},
    }
}

/// Ends a signing attempt: picks the status for what the steps gave, and
/// hands the signature out if and only if all of them succeeded.
pub fn conclude_signing(
    signature_out: &mut [u8; 64],
    decoded: bool,
    signature: Option<[u8; 64]>,
    verified: bool,
) -> (status: Ed25519Result)
    ensures
        status == signing_status(decoded, signature is Some, verified),
        status == Ed25519Result::Success ==> Some(*final(signature_out)) == signature,
        status != Ed25519Result::Success ==> *final(signature_out) == *old(signature_out),
{
    if !decoded {
        return Ed25519Result::KeypairFromBytesFailed;
    }
    match signature {
        None => Ed25519Result::SignFailed,
        Some(bytes) => {
            if verified {
                *signature_out = bytes;
                Ed25519Result::Success
            } else {
                Ed25519Result::VerificationFailed
            }
        },
    }
}

/// Sign the message using the provided keypair.
///
/// The signature is verified against the public half of the keypair before
/// it is handed out. Returns a status code; on success, and only then, the
/// signature is written to `signature_out`.
pub fn ed25519_sign(
    signature_out: &mut [u8; 64],
    keypair: Option<&[u8]>,
    message: Option<&[u8]>,
) -> (status: Ed25519Result)
    ensures
        match (keypair, message) {
            (Some(keypair), Some(message)) => {
                &&& status == status_of_signing(keypair@, message@)
                &&& status == Ed25519Result::Success ==> Some(final(signature_out)@) == signature_by(
                    keypair@,
                    message@,
                )
            },
            _ => status == Ed25519Result::NullArgument,
        },
        status != Ed25519Result::Success ==> *final(signature_out) == *old(signature_out),
{
    let (keypair, message) = match (keypair, message) {
        (Some(keypair), Some(message)) => (keypair, message),
        _ => {
            return Ed25519Result::NullArgument;
        },
    };
    let decoded = decodes_as_keypair(keypair);
    let signature = if decoded {
        sign_with(keypair, message)
    } else {
        None
    };
    let verified = match &signature {
        Some(bytes) => check_signature(slice_subrange(keypair, 32, 64), message, bytes.as_slice()),
        None => false,
    };
    conclude_signing(signature_out, decoded, signature, verified)
}

/// Ends a verification: picks the status for what the steps gave.
pub fn conclude_verifying(key_decoded: bool, signature_decoded: bool, verified: bool) -> (status:
    Ed25519Result)
    ensures
        status == verifying_status(key_decoded, signature_decoded, verified),
{
    if !key_decoded {
        Ed25519Result::PublicKeyFromBytesFailed
    } else if !signature_decoded {
        Ed25519Result::SignatureFromBytesFailed
    } else if !verified {
        Ed25519Result::VerificationFailed
    } else {
        Ed25519Result::Success
    }
}

/// Verify a signature of a message using provided public key.
pub fn ed25519_verify(
    signature: Option<&[u8]>,
    public_key: Option<&[u8]>,
    message: Option<&[u8]>,
) -> (status: Ed25519Result)
    ensures
        status == match (signature, public_key, message) {
            (Some(signature), Some(public_key), Some(message)) => status_of_verifying(
                signature@,
                public_key@,
                message@,
            ),
            _ => Ed25519Result::NullArgument,
        },
{
    let (signature, public_key, message) = match (signature, public_key, message) {
        (Some(signature), Some(public_key), Some(message)) => (signature, public_key, message),
        _ => {
            return Ed25519Result::NullArgument;
        },
    };
    let key_decoded = decodes_as_public_key(public_key);
    let signature_decoded = key_decoded && decodes_as_signature(signature);
    let verified = signature_decoded && check_signature(public_key, message, signature);
    conclude_verifying(key_decoded, signature_decoded, verified)
}

} // verus!
