//! The three long-lived ledger records.
//!
//! `DistributionState` and `BackendAuthority` are process-wide singletons;
//! one `UserCommitment` exists per participant, created lazily on the first
//! accepted commit.  The surrounding execution environment serializes all
//! operations that touch the same record, so every operation here is a
//! single check-then-mutate critical section.

use vstd::prelude::*;

verus! {

/// 32-byte identity of an account (participant, authority or backend key).
pub type AccountId = [u8; 32];

/// Global raise state: pool size, cumulative totals, target and window.
///
/// `total_sol_raised` and `total_score` are maintained exactly as the sums
/// of all accepted contributions via overflow-checked addition; they are
/// never recomputed by summation.
#[derive(Clone, Copy, Debug)]
pub struct DistributionState {
    /// Administrative authority allowed to run the gated operations.
    pub authority: AccountId,
    /// Total tokens available to distribute.
    pub total_token_pool: u64,
    /// Sum of all participants' score.
    pub total_score: u64,
    /// One-way latch: flips to false when the target is reached.
    pub is_active: bool,
    /// Unix timestamp at which the commit window closes.
    pub commit_end_time: i64,
    /// Raise-currency units required per point, scaled by `PRECISION_FACTOR`.
    pub rate: u64,
    /// Target amount of raise currency.
    pub target_raise_sol: u64,
    /// Sum of all accepted contributed amounts.
    pub total_sol_raised: u64,
    /// Address-derivation bump of the persisted record.
    pub bump: u8,
}

impl DistributionState {
    /// Persisted size of the fields in bytes (excluding the discriminator
    /// prefix): 32 + 8 + 8 + 1 + 8 + 8 + 8 + 8 + 1.
    pub const LEN: usize = 32 + 8 + 8 + 1 + 8 + 8 + 8 + 8 + 1;
}

/// Per-participant cumulative commitment state.
#[derive(Clone, Copy, Debug)]
pub struct UserCommitment {
    /// The participant this record belongs to.
    pub user: AccountId,
    /// Cumulative off-chain-assigned credit.
    pub points: u64,
    /// Cumulative raise currency contributed.
    pub sol_amount: u64,
    /// Cumulative distribution weight (equal to cumulative `sol_amount`).
    pub score: u64,
    /// One-way latch: set when this record's tokens are claimed.
    pub tokens_claimed: bool,
}

impl UserCommitment {
    /// Persisted size of the fields in bytes: 32 + 8 + 8 + 8 + 1.
    pub const LEN: usize = 32 + 8 + 8 + 8 + 1;
}

/// Backend authority record: the off-chain signer's key, its active flag
/// and the global monotonic replay counter.
#[derive(Clone, Copy, Debug)]
pub struct BackendAuthority {
    /// Administrative authority allowed to rotate the key or toggle status.
    pub authority: AccountId,
    /// Public key of the off-chain backend service.
    pub backend_pubkey: AccountId,
    /// Whether proofs from the backend are currently accepted.
    pub is_active: bool,
    /// High-water mark of accepted proof nonces; never decreases.
    pub nonce_counter: u64,
}

impl BackendAuthority {
    /// Persisted size of the fields in bytes: 32 + 32 + 1 + 8.
    pub const LEN: usize = 32 + 32 + 1 + 8;
}

} // verus!
