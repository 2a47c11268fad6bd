//! Companion-verification locator.
//!
//! A commit is authorized by a signature that was already validated
//! cryptographically by a dedicated verification component earlier in the
//! same atomic batch.  This module never performs curve math: it locates
//! the nearest preceding operation dispatched to that component and proves
//! that the very (public key, signature, message) triple it validated is
//! the one the commit expects, failing closed on any mismatch.

use vstd::prelude::*;
use vstd::slice::slice_subrange;

use crate::errors::ErrorCode;
use crate::state::AccountId;

verus! {

/// One operation of the current atomic batch, as the locator sees it:
/// whether it was dispatched to the designated signature-verification
/// component, and its raw payload bytes.
#[derive(Debug)]
pub struct BatchInstruction {
    /// True when the operation's target is the signature-verification
    /// component.
    pub is_ed25519_verifier: bool,
    /// The operation's payload.
    pub data: Vec<u8>,
}

/// Index of the nearest operation before `i` that was dispatched to the
/// signature-verification component, if any.
pub open spec fn spec_nearest_verifier(instrs: Seq<BatchInstruction>, i: int) -> Option<int>
    decreases i,
{
    if i <= 0 {
        None::<int>
    } else if instrs[i - 1].is_ed25519_verifier {
        Some(i - 1)
    } else {
        spec_nearest_verifier(instrs, i - 1)
    }
}

/// Whether a verification record's payload attests exactly the expected
/// triple.  The layout is the calling client's single-signature format:
/// bytes 0..2 hold the signature count as little-endian (must be 1),
/// bytes 16..48 the public key, 48..112 the signature, and 112.. the
/// message.
pub open spec fn spec_record_matches(
    data: Seq<u8>,
    pk: Seq<u8>,
    sig: Seq<u8>,
    msg: Seq<u8>,
) -> bool {
    &&& data.len() >= 2
    &&& data[0] == 1u8
    &&& data[1] == 0u8
    &&& data.len() >= 112
    &&& data.subrange(48, 112) == sig
    &&& data.subrange(16, 48) == pk
    &&& data.subrange(112, data.len() as int) == msg
}

/// Whether the batch holds a companion verification record for the
/// expected triple: the nearest preceding operation sent to the
/// verification component exists, is well-formed, and attests exactly
/// (pk, sig, msg).
pub open spec fn spec_companion_ok(
    instrs: Seq<BatchInstruction>,
    current: int,
    pk: Seq<u8>,
    sig: Seq<u8>,
    msg: Seq<u8>,
) -> bool {
    match spec_nearest_verifier(instrs, current) {
        Some(j) => spec_record_matches(instrs[j].data@, pk, sig, msg),
        None => false,
    }
}

/// Byte-for-byte comparison of two slices.
pub fn bytes_equal(a: &[u8], b: &[u8]) -> (r: bool)
    ensures
        r == (a@ == b@),
{
    if a.len() != b.len() {
        return false;
    }
    let mut i: usize = 0;
    while i < a.len()
        invariant
            a@.len() == b@.len(),
            i <= a@.len(),
            forall|k: int| 0 <= k < i ==> a@[k] == b@[k],
        decreases a@.len() - i,
    {
        if a[i] != b[i] {
            return false;
        }
        i = i + 1;
    }
    proof {
        assert(a@ =~= b@);
    }
    true
}

/// Locates the companion verification record for the expected triple and
/// cross-checks its fields, failing closed on any mismatch.
///
/// Scans backwards from the currently executing operation; the nearest
/// operation dispatched to the verification component wins, whether or not
/// its contents match.  Returns `Ed25519VerificationFailed` when no such
/// operation precedes the current one, when its payload is malformed, or
/// when any of the signature, public key or message differs from the
/// expected value.
pub fn verify_ed25519_signature(
    signature: &[u8; 64],
    message: &[u8],
    pubkey: &AccountId,
    instructions: &Vec<BatchInstruction>,
    current_index: usize,
) -> (r: Result<(), ErrorCode>)
    requires
        current_index <= instructions@.len(),
    ensures
        r is Ok <==> spec_companion_ok(
            instructions@,
            current_index as int,
            pubkey@,
            signature@,
            message@,
        ),
        r is Err ==> r == Err::<(), ErrorCode>(ErrorCode::Ed25519VerificationFailed),
{
    let mut idx: usize = current_index;
    let mut found: bool = false;
    let mut found_idx: usize = 0;
    while idx > 0
        invariant_except_break
            idx <= current_index,
            current_index <= instructions@.len(),
            !found,
            spec_nearest_verifier(instructions@, current_index as int) == spec_nearest_verifier(
                instructions@,
                idx as int,
            ),
        ensures
            found ==> found_idx < current_index,
            match spec_nearest_verifier(instructions@, current_index as int) {
                Some(j) => found && found_idx == j,
                None => !found,
            },
        decreases idx,
    {
        idx = idx - 1;
        if instructions[idx].is_ed25519_verifier {
            found = true;
            found_idx = idx;
            break;
        }
    }
    if !found {
        return Err(ErrorCode::Ed25519VerificationFailed);
    }
    let ix_data: &Vec<u8> = &instructions[found_idx].data;
    // The first two bytes are the record's signature count as a
    // little-endian 16-bit value; exactly one signature is accepted.
    if ix_data.len() < 2 {
        return Err(ErrorCode::Ed25519VerificationFailed);
    }
    if !(ix_data[0] == 1 && ix_data[1] == 0) {
        return Err(ErrorCode::Ed25519VerificationFailed);
    }
    if ix_data.len() < 112 {
        return Err(ErrorCode::Ed25519VerificationFailed);
    }
    let actual_signature = slice_subrange(ix_data.as_slice(), 48, 112);
    if !bytes_equal(actual_signature, signature.as_slice()) {
        return Err(ErrorCode::Ed25519VerificationFailed);
    }
    let actual_pubkey = slice_subrange(ix_data.as_slice(), 16, 48);
    if !bytes_equal(actual_pubkey, pubkey.as_slice()) {
        return Err(ErrorCode::Ed25519VerificationFailed);
    }
    let actual_message = slice_subrange(ix_data.as_slice(), 112, ix_data.len());
    if !bytes_equal(actual_message, message) {
        return Err(ErrorCode::Ed25519VerificationFailed);
    }
    Ok(())
}

} // verus!
