//! Lifecycle coordinator: the commit / claim / withdraw state transitions.
//!
//! Every operation is fail-closed and atomic: the preconditions are
//! checked in a fixed order, and no record is mutated unless every check
//! (including every overflow check) has passed.  The exact transition of
//! the commit path is written once, as `spec_commit`, and the executable
//! `commit_resources` is proved to implement it; the replay-protection,
//! target-latch and accounting laws are proved against that same
//! transition in `laws`.

use vstd::prelude::*;

use crate::companion::BatchInstruction;
use crate::companion::spec_companion_ok;
use crate::companion::verify_ed25519_signature;
use crate::errors::ErrorCode;
use crate::proof_message::create_proof_message;
use crate::proof_message::spec_proof_message;
use crate::prorata::claim_amount;
use crate::prorata::required_contribution;
use crate::prorata::spec_claim_amount;
use crate::prorata::spec_required_contribution;
use crate::state::AccountId;
use crate::state::BackendAuthority;
use crate::state::DistributionState;
use crate::state::UserCommitment;

verus! {

/// Fresh distribution ledger: empty totals, active, with the given window,
/// rate and target.
pub fn initialize(
    authority: &AccountId,
    commit_end_time: i64,
    rate: u64,
    target_raise_sol: u64,
    bump: u8,
) -> (ds: DistributionState)
    ensures
        ds == (DistributionState {
            authority: *authority,
            total_token_pool: 0u64,
            total_score: 0u64,
            is_active: true,
            commit_end_time: commit_end_time,
            rate: rate,
            target_raise_sol: target_raise_sol,
            total_sol_raised: 0u64,
            bump: bump,
        }),
{
    DistributionState {
        authority: *authority,
        total_token_pool: 0,
        total_score: 0,
        is_active: true,
        commit_end_time,
        rate,
        target_raise_sol,
        total_sol_raised: 0,
        bump,
    }
}

/// Fresh backend authority record: active, with the replay counter at
/// zero.
pub fn initialize_backend_authority(
    authority: &AccountId,
    backend_pubkey: &AccountId,
) -> (ba: BackendAuthority)
    ensures
        ba == (BackendAuthority {
            authority: *authority,
            backend_pubkey: *backend_pubkey,
            is_active: true,
            nonce_counter: 0u64,
        }),
{
    BackendAuthority {
        authority: *authority,
        backend_pubkey: *backend_pubkey,
        is_active: true,
        nonce_counter: 0,
    }
}

/// Moves the end of the commit window.  Only the configured authority may
/// do so.
pub fn set_commit_end_time(
    distribution_state: &mut DistributionState,
    signer: &AccountId,
    new_end_time: i64,
) -> (r: Result<(), ErrorCode>)
    ensures
        match r {
            Ok(_) => signer@ == old(distribution_state).authority@ && *final(distribution_state)
                == (DistributionState {
                commit_end_time: new_end_time,
                ..*old(distribution_state)
            }),
            Err(e) => e == ErrorCode::Unauthorized
                && signer@ != old(distribution_state).authority@
                && *final(distribution_state) == *old(distribution_state),
        },
{
    if !crate::companion::bytes_equal(signer.as_slice(), distribution_state.authority.as_slice()) {
        return Err(ErrorCode::Unauthorized);
    }
    distribution_state.commit_end_time = new_end_time;
    Ok(())
}

/// Whether custody funds may leave the ledger: the commit window has
/// closed, or the raise target has been reached.  Evaluated independently
/// of the `is_active` flag.
pub open spec fn spec_withdraw_allowed(ds: DistributionState, now: i64) -> bool {
    now >= ds.commit_end_time || ds.total_sol_raised >= ds.target_raise_sol
}

/// Decides whether `amount` may be withdrawn from custody.
///
/// `balance` is the custody balance and `rent_exempt_minimum` the part of
/// it that must stay behind; the caller performs the actual transfer only
/// on `Ok`.
pub fn withdraw_sol(
    distribution_state: &DistributionState,
    signer: &AccountId,
    now: i64,
    amount: u64,
    balance: u64,
    rent_exempt_minimum: u64,
) -> (r: Result<(), ErrorCode>)
    ensures
        match r {
            Ok(_) => signer@ == distribution_state.authority@ && spec_withdraw_allowed(
                *distribution_state,
                now,
            ) && balance >= amount + rent_exempt_minimum,
            Err(e) => (e == ErrorCode::Unauthorized && signer@ != distribution_state.authority@)
                || (e == ErrorCode::WithdrawConditionsNotMet && signer@
                == distribution_state.authority@ && !spec_withdraw_allowed(
                *distribution_state,
                now,
            )) || (e == ErrorCode::InsufficientBalance && signer@
                == distribution_state.authority@ && spec_withdraw_allowed(
                *distribution_state,
                now,
            ) && balance < amount + rent_exempt_minimum),
        },
{
    if !crate::companion::bytes_equal(signer.as_slice(), distribution_state.authority.as_slice()) {
        return Err(ErrorCode::Unauthorized);
    }
    let commit_period_ended = now >= distribution_state.commit_end_time;
    let target_reached = distribution_state.total_sol_raised
        >= distribution_state.target_raise_sol;
    if !(commit_period_ended || target_reached) {
        return Err(ErrorCode::WithdrawConditionsNotMet);
    }
    // `amount + rent_exempt_minimum` may exceed the 64-bit range; a balance
    // can never cover such a requirement, so that case is insufficient too.
    match amount.checked_add(rent_exempt_minimum) {
        Some(required) => {
            if balance < required {
                return Err(ErrorCode::InsufficientBalance);
            }
        },
        None => {
            return Err(ErrorCode::InsufficientBalance);
        },
    }
    Ok(())
}

/// Authority gate for creating the token vault; the vault itself lives
/// outside the ledger.
pub fn create_token_vault(distribution_state: &DistributionState, signer: &AccountId) -> (r:
    Result<(), ErrorCode>)
    ensures
        match r {
            Ok(_) => signer@ == distribution_state.authority@,
            Err(e) => e == ErrorCode::Unauthorized && signer@ != distribution_state.authority@,
        },
{
    if !crate::companion::bytes_equal(signer.as_slice(), distribution_state.authority.as_slice()) {
        return Err(ErrorCode::Unauthorized);
    }
    Ok(())
}

/// Records the size of the funded token pool.  Only the configured
/// authority may fund; the caller moves the tokens themselves only on
/// `Ok`.
pub fn fund_vault(
    distribution_state: &mut DistributionState,
    signer: &AccountId,
    amount: u64,
) -> (r: Result<(), ErrorCode>)
    ensures
        match r {
            Ok(_) => signer@ == old(distribution_state).authority@ && *final(distribution_state)
                == (DistributionState { total_token_pool: amount, ..*old(distribution_state) }),
            Err(e) => e == ErrorCode::Unauthorized
                && signer@ != old(distribution_state).authority@
                && *final(distribution_state) == *old(distribution_state),
        },
{
    if !crate::companion::bytes_equal(signer.as_slice(), distribution_state.authority.as_slice()) {
        return Err(ErrorCode::Unauthorized);
    }
    distribution_state.total_token_pool = amount;
    Ok(())
}

/// Toggles whether backend proofs are accepted.  Only the configured
/// authority may do so.
pub fn update_backend_authority(
    backend_authority: &mut BackendAuthority,
    signer: &AccountId,
    is_active: bool,
) -> (r: Result<(), ErrorCode>)
    ensures
        match r {
            Ok(_) => signer@ == old(backend_authority).authority@ && *final(backend_authority)
                == (BackendAuthority { is_active: is_active, ..*old(backend_authority) }),
            Err(e) => e == ErrorCode::Unauthorized
                && signer@ != old(backend_authority).authority@
                && *final(backend_authority) == *old(backend_authority),
        },
{
    if !crate::companion::bytes_equal(signer.as_slice(), backend_authority.authority.as_slice()) {
        return Err(ErrorCode::Unauthorized);
    }
    backend_authority.is_active = is_active;
    Ok(())
}

/// Rotates the backend's public key.  Only the configured authority may do
/// so.
pub fn update_backend_pubkey(
    backend_authority: &mut BackendAuthority,
    signer: &AccountId,
    new_backend_pubkey: &AccountId,
) -> (r: Result<(), ErrorCode>)
    ensures
        match r {
            Ok(_) => signer@ == old(backend_authority).authority@ && *final(backend_authority)
                == (BackendAuthority {
                backend_pubkey: *new_backend_pubkey,
                ..*old(backend_authority)
            }),
            Err(e) => e == ErrorCode::Unauthorized
                && signer@ != old(backend_authority).authority@
                && *final(backend_authority) == *old(backend_authority),
        },
{
    if !crate::companion::bytes_equal(signer.as_slice(), backend_authority.authority.as_slice()) {
        return Err(ErrorCode::Unauthorized);
    }
    backend_authority.backend_pubkey = *new_backend_pubkey;
    Ok(())
}

/// The ledger records after an accepted commit: the user's cumulative
/// fields and the global totals grow by the committed values, the replay
/// counter ratchets to the proof's nonce, and the distribution closes when
/// the new total reaches the target.  The claim latch is never touched by
/// a commit.
pub open spec fn spec_commit_apply(
    ds: DistributionState,
    uc: UserCommitment,
    ba: BackendAuthority,
    user: AccountId,
    points: u64,
    sol_amount: u64,
    nonce: u64,
) -> (DistributionState, UserCommitment, BackendAuthority)
    recommends
        uc.points + points <= u64::MAX,
        uc.sol_amount + sol_amount <= u64::MAX,
        uc.score + sol_amount <= u64::MAX,
        ds.total_score + sol_amount <= u64::MAX,
        ds.total_sol_raised + sol_amount <= u64::MAX,
{
    let new_raised = (ds.total_sol_raised + sol_amount) as u64;
    (
        DistributionState {
            total_score: (ds.total_score + sol_amount) as u64,
            total_sol_raised: new_raised,
            is_active: ds.is_active && new_raised < ds.target_raise_sol,
            ..ds
        },
        UserCommitment {
            user: user,
            points: (uc.points + points) as u64,
            sol_amount: (uc.sol_amount + sol_amount) as u64,
            score: (uc.score + sol_amount) as u64,
            ..uc
        },
        BackendAuthority { nonce_counter: nonce, ..ba },
    )
}

/// The whole commit transition: the precondition chain in its fixed order,
/// and on success the atomic update of all three records.
///
/// `score` is defined as the contributed amount itself, not the points:
/// points only derive the required minimum contribution.
pub open spec fn spec_commit(
    ds: DistributionState,
    uc: UserCommitment,
    ba: BackendAuthority,
    user: AccountId,
    points: u64,
    sol_amount: u64,
    signature: Seq<u8>,
    nonce: u64,
    expiry: i64,
    now: i64,
    instrs: Seq<BatchInstruction>,
    current: int,
) -> Result<(DistributionState, UserCommitment, BackendAuthority), ErrorCode> {
    if !ba.is_active {
        Err(ErrorCode::BackendInactive)
    } else if nonce <= ba.nonce_counter {
        Err(ErrorCode::InvalidNonce)
    } else if expiry <= now {
        Err(ErrorCode::ProofExpired)
    } else if !spec_companion_ok(
        instrs,
        current,
        ba.backend_pubkey@,
        signature,
        spec_proof_message(user@, points, nonce, expiry),
    ) {
        Err(ErrorCode::Ed25519VerificationFailed)
    } else if !ds.is_active {
        Err(ErrorCode::DistributionNotActive)
    } else if now >= ds.commit_end_time {
        Err(ErrorCode::CommitPeriodEnded)
    } else if ds.total_sol_raised >= ds.target_raise_sol {
        Err(ErrorCode::TargetSolReached)
    } else if spec_required_contribution(points, ds.rate) > u64::MAX {
        Err(ErrorCode::CalculationOverflow)
    } else if (sol_amount as int) < spec_required_contribution(points, ds.rate) {
        Err(ErrorCode::InsufficientSolCommitment)
    } else if uc.points + points > u64::MAX || uc.sol_amount + sol_amount > u64::MAX || uc.score
        + sol_amount > u64::MAX || ds.total_score + sol_amount > u64::MAX || ds.total_sol_raised
        + sol_amount > u64::MAX {
        Err(ErrorCode::CalculationOverflow)
    } else {
        Ok(spec_commit_apply(ds, uc, ba, user, points, sol_amount, nonce))
    }
}

/// Commits `sol_amount` of raise currency for `points` credits, authorized
/// by a backend-signed proof whose signature was validated by a companion
/// verification record in the current batch.
///
/// Implements `spec_commit` exactly: the checks run in its order, and on
/// any failure all three records are left untouched.  The caller moves the
/// contributed amount into custody only on `Ok`.
pub fn commit_resources(
    user: &AccountId,
    user_commitment: &mut UserCommitment,
    backend_authority: &mut BackendAuthority,
    distribution_state: &mut DistributionState,
    points: u64,
    sol_amount: u64,
    backend_signature: &[u8; 64],
    nonce: u64,
    expiry: i64,
    now: i64,
    instructions: &Vec<BatchInstruction>,
    current_index: usize,
) -> (r: Result<(), ErrorCode>)
    requires
        current_index <= instructions@.len(),
    ensures
        match spec_commit(
            *old(distribution_state),
            *old(user_commitment),
            *old(backend_authority),
            *user,
            points,
            sol_amount,
            backend_signature@,
            nonce,
            expiry,
            now,
            instructions@,
            current_index as int,
        ) {
            Ok(t) => r == Ok::<(), ErrorCode>(()) && *final(distribution_state) == t.0
                && *final(user_commitment) == t.1 && *final(backend_authority) == t.2,
            Err(e) => r == Err::<(), ErrorCode>(e)
                && *final(distribution_state) == *old(distribution_state)
                && *final(user_commitment) == *old(user_commitment)
                && *final(backend_authority) == *old(backend_authority),
        },
{
    if !backend_authority.is_active {
        return Err(ErrorCode::BackendInactive);
    }
    if nonce <= backend_authority.nonce_counter {
        return Err(ErrorCode::InvalidNonce);
    }
    if expiry <= now {
        return Err(ErrorCode::ProofExpired);
    }
    let message = create_proof_message(user, points, nonce, expiry);
    match verify_ed25519_signature(
        backend_signature,
        message.as_slice(),
        &backend_authority.backend_pubkey,
        instructions,
        current_index,
    ) {
        Ok(_) => {},
        Err(e) => {
            return Err(e);
        },
    }
    if !distribution_state.is_active {
        return Err(ErrorCode::DistributionNotActive);
    }
    if now >= distribution_state.commit_end_time {
        return Err(ErrorCode::CommitPeriodEnded);
    }
    if distribution_state.total_sol_raised >= distribution_state.target_raise_sol {
        return Err(ErrorCode::TargetSolReached);
    }
    let required_sol = match required_contribution(points, distribution_state.rate) {
        Ok(v) => v,
        Err(e) => {
            return Err(e);
        },
    };
    if sol_amount < required_sol {
        return Err(ErrorCode::InsufficientSolCommitment);
    }
    // Stage every addition first: no record is mutated unless all of them
    // fit, so a late overflow aborts with nothing written.
    let new_points = match user_commitment.points.checked_add(points) {
        Some(v) => v,
        None => {
            return Err(ErrorCode::CalculationOverflow);
        },
    };
    let new_sol_amount = match user_commitment.sol_amount.checked_add(sol_amount) {
        Some(v) => v,
        None => {
            return Err(ErrorCode::CalculationOverflow);
        },
    };
    let new_score = match user_commitment.score.checked_add(sol_amount) {
        Some(v) => v,
        None => {
            return Err(ErrorCode::CalculationOverflow);
        },
    };
    let new_total_score = match distribution_state.total_score.checked_add(sol_amount) {
        Some(v) => v,
        None => {
            return Err(ErrorCode::CalculationOverflow);
        },
    };
    let new_total_raised = match distribution_state.total_sol_raised.checked_add(sol_amount) {
        Some(v) => v,
        None => {
            return Err(ErrorCode::CalculationOverflow);
        },
    };
    user_commitment.user = *user;
    user_commitment.points = new_points;
    user_commitment.sol_amount = new_sol_amount;
    user_commitment.score = new_score;
    distribution_state.total_score = new_total_score;
    distribution_state.total_sol_raised = new_total_raised;
    backend_authority.nonce_counter = nonce;
    if distribution_state.total_sol_raised >= distribution_state.target_raise_sol {
        distribution_state.is_active = false;
    }
    Ok(())
}

/// The claim transition: reject a second claim or an empty raise, and
/// otherwise latch the claim flag and pay the pro-rata share.
pub open spec fn spec_claim(ds: DistributionState, uc: UserCommitment) -> Result<
    (UserCommitment, u64),
    ErrorCode,
> {
    if uc.tokens_claimed {
        Err(ErrorCode::AlreadyClaimed)
    } else if ds.total_score == 0 {
        Err(ErrorCode::NoCommitments)
    } else if spec_claim_amount(ds.total_token_pool, uc.score, ds.total_score) > u64::MAX {
        Err(ErrorCode::CalculationOverflow)
    } else {
        Ok(
            (
                UserCommitment { tokens_claimed: true, ..uc },
                spec_claim_amount(ds.total_token_pool, uc.score, ds.total_score) as u64,
            ),
        )
    }
}

/// Computes the claimant's pro-rata share and latches the claim flag.
///
/// Implements `spec_claim` exactly: a second claim fails with
/// `AlreadyClaimed`, an empty raise with `NoCommitments`, and the record is
/// untouched on any failure.  The caller transfers the returned amount
/// only on `Ok`.
pub fn claim_tokens(
    user_commitment: &mut UserCommitment,
    distribution_state: &DistributionState,
) -> (r: Result<u64, ErrorCode>)
    ensures
        match spec_claim(*distribution_state, *old(user_commitment)) {
            Ok(t) => r == Ok::<u64, ErrorCode>(t.1) && *final(user_commitment) == t.0,
            Err(e) => r == Err::<u64, ErrorCode>(e) && *final(user_commitment) == *old(
                user_commitment,
            ),
        },
{
    if user_commitment.tokens_claimed {
        return Err(ErrorCode::AlreadyClaimed);
    }
    let amount = match claim_amount(
        distribution_state.total_token_pool,
        user_commitment.score,
        distribution_state.total_score,
    ) {
        Ok(v) => v,
        Err(e) => {
            return Err(e);
        },
    };
    user_commitment.tokens_claimed = true;
    Ok(amount)
}

} // verus!
