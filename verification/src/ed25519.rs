//! Direct Ed25519 signature verification.
//!
//! The ledger's commit path never performs curve math itself (see
//! `companion`); this standalone checker is for callers that hold the raw
//! key, signature and message and want the cryptographic verdict.  The
//! curve arithmetic is delegated to the `ed25519_dalek` crate; its outcome
//! is a pure function of the three byte strings, named below so contracts
//! can speak about it without restating the algorithm.

use vstd::prelude::*;

use crate::errors::ErrorCode;
use crate::state::AccountId;

verus! {

/// Whether 32 bytes decode to a valid curve point, as decided by
/// `ed25519_dalek::PublicKey::from_bytes`.
pub uninterp spec fn ed25519_pubkey_decodes(pk: Seq<u8>) -> bool;

/// Whether 64 bytes pass the encoding check of
/// `ed25519_dalek::Signature::from_bytes` (the scalar's top three bits
/// must be clear).
pub uninterp spec fn ed25519_signature_decodes(sig: Seq<u8>) -> bool;

/// The cryptographic verdict of `ed25519_dalek`'s `Verifier::verify` for a
/// key, signature and message; a function of the three byte strings alone.
pub uninterp spec fn ed25519_verifies(pk: Seq<u8>, sig: Seq<u8>, msg: Seq<u8>) -> bool;

/// Verifies an Ed25519 signature over `message` under `pubkey`.
///
/// Relies on `ed25519_dalek`: `PublicKey::from_bytes` fails exactly when
/// the key bytes do not decode to a curve point, `Signature::from_bytes`
/// fails exactly when the signature bytes are malformed, and
/// `Verifier::verify`'s outcome depends on the key, signature and message
/// bytes alone.  Both decoding failures are reported as
/// `InvalidSignature`; a well-formed but wrong signature is `Ok(false)`.
#[verifier::external_body]
pub fn verify_signature(
    pubkey: &AccountId,
    signature: &[u8; 64],
    message: &[u8],
) -> (r: Result<bool, ErrorCode>)
    ensures
        match r {
            Ok(b) => ed25519_pubkey_decodes(pubkey@) && ed25519_signature_decodes(signature@)
                && b == ed25519_verifies(pubkey@, signature@, message@),
            Err(e) => e == ErrorCode::InvalidSignature && !(ed25519_pubkey_decodes(pubkey@)
                && ed25519_signature_decodes(signature@)),
        },
{
    let pk = match ed25519_dalek::PublicKey::from_bytes(&pubkey[..]) {
        Ok(pk) => pk,
        Err(_) => return Err(ErrorCode::InvalidSignature),
    };
    let sig = match ed25519_dalek::Signature::from_bytes(&signature[..]) {
        Ok(sig) => sig,
        Err(_) => return Err(ErrorCode::InvalidSignature),
    };
    Ok(ed25519_dalek::Verifier::verify(&pk, message, &sig).is_ok())
}

} // verus!
