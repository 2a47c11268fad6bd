//! Proof canonicalizer.
//!
//! Builds the deterministic byte message that the off-chain backend signs:
//! a fixed ASCII domain tag followed by the user identity and the `points`,
//! `nonce` and `expiry` fields as 8-byte little-endian values.  This exact
//! layout is a wire contract with the off-chain signer: any byte-order,
//! field-order or tag change is a breaking protocol change.

use vstd::bytes::spec_u64_to_le_bytes;
use vstd::bytes::u64_to_le_bytes;
use vstd::prelude::*;

use crate::state::AccountId;

verus! {

/// The ASCII bytes of the domain tag `POINTS_DEDUCTION_PROOF:` that prefix
/// every proof message.
pub open spec fn spec_domain_tag() -> Seq<u8> {
    seq![
        80u8,
        79u8,
        73u8,
        78u8,
        84u8,
        83u8,
        95u8,
        68u8,
        69u8,
        68u8,
        85u8,
        67u8,
        84u8,
        73u8,
        79u8,
        78u8,
        95u8,
        80u8,
        82u8,
        79u8,
        79u8,
        70u8,
        58u8,
    ]
}

/// The canonical proof message:
/// tag || user || points (LE) || nonce (LE) || expiry (LE).
pub open spec fn spec_proof_message(user: Seq<u8>, points: u64, nonce: u64, expiry: i64) -> Seq<
    u8,
> {
    spec_domain_tag() + user + spec_u64_to_le_bytes(points) + spec_u64_to_le_bytes(nonce)
        + spec_u64_to_le_bytes(expiry as u64)
}

/// Appends all of `src` to `dst`, in order.
fn push_bytes(dst: &mut Vec<u8>, src: &[u8])
    ensures
        final(dst)@ == old(dst)@ + src@,
{
    let mut i: usize = 0;
    while i < src.len()
        invariant
            i <= src.len(),
            dst@ == old(dst)@ + src@.subrange(0, i as int),
        decreases src.len() - i,
    {
        dst.push(src[i]);
        proof {
            assert(old(dst)@ + src@.subrange(0, i as int) + seq![src@[i as int]] =~= old(dst)@
                + src@.subrange(0, i + 1 as int));
        }
        i = i + 1;
    }
    proof {
        assert(src@.subrange(0, src@.len() as int) =~= src@);
    }
}

/// Builds the byte message over which the backend's signature is checked.
///
/// Pure function of its arguments; the layout is pinned down exactly by
/// `spec_proof_message`.
pub fn create_proof_message(user: &AccountId, points: u64, nonce: u64, expiry: i64) -> (r: Vec<
    u8,
>)
    ensures
        r@ == spec_proof_message(user@, points, nonce, expiry),
{
    let mut message: Vec<u8> = Vec::new();
    message.push(80u8);
    message.push(79u8);
    message.push(73u8);
    message.push(78u8);
    message.push(84u8);
    message.push(83u8);
    message.push(95u8);
    message.push(68u8);
    message.push(69u8);
    message.push(68u8);
    message.push(85u8);
    message.push(67u8);
    message.push(84u8);
    message.push(73u8);
    message.push(79u8);
    message.push(78u8);
    message.push(95u8);
    message.push(80u8);
    message.push(82u8);
    message.push(79u8);
    message.push(79u8);
    message.push(70u8);
    message.push(58u8);
    proof {
        assert(message@ =~= spec_domain_tag());
    }
    push_bytes(&mut message, user.as_slice());
    let points_bytes = u64_to_le_bytes(points);
    push_bytes(&mut message, points_bytes.as_slice());
    let nonce_bytes = u64_to_le_bytes(nonce);
    push_bytes(&mut message, nonce_bytes.as_slice());
    let expiry_bytes = u64_to_le_bytes(#[verifier::truncate] (expiry as u64));
    push_bytes(&mut message, expiry_bytes.as_slice());
    proof {
        assert(message@ =~= spec_proof_message(user@, points, nonce, expiry));
    }
    message
}

} // verus!
