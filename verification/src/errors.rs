//! Error taxonomy of the ledger.
//!
//! Every operation either succeeds atomically or aborts with one of these
//! codes and no state mutated.

use vstd::prelude::*;

verus! {

/// Reason an operation was rejected.  Each variant corresponds to exactly
/// one failed precondition; operations check their preconditions in a fixed
/// order, so the code reported is the first one that failed.
#[derive(Clone, Copy, Debug, PartialEq, Eq, Structural)]
pub enum ErrorCode {
    /// The distribution has been closed (target reached).
    DistributionNotActive,
    /// This commitment record has already claimed its tokens.
    AlreadyClaimed,
    /// No score has been accumulated, so no pro-rata share exists.
    NoCommitments,
    /// The signer is not the configured authority.
    Unauthorized,
    /// The commit window has closed.
    CommitPeriodEnded,
    /// The commit window is still open.
    CommitPeriodNotEnded,
    /// The custody balance cannot cover the requested withdrawal.
    InsufficientBalance,
    /// The raise target has already been reached.
    TargetSolReached,
    /// The contributed amount is below the required minimum.
    InsufficientSolCommitment,
    /// Neither the window has closed nor the target been reached.
    WithdrawConditionsNotMet,
    /// The backend authority is switched off.
    BackendInactive,
    /// The proof nonce does not exceed the current high-water mark.
    InvalidNonce,
    /// The proof expiry is not in the future.
    ProofExpired,
    /// The signature bytes could not be interpreted.
    InvalidSignature,
    /// No matching companion verification record was found.
    Ed25519VerificationFailed,
    /// The token account does not belong to this distribution.
    InvalidTokenAccount,
    /// An addition or multiplication would exceed the representable range.
    CalculationOverflow,
}

} // verus!
