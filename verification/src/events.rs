//! Notification payloads.
//!
//! The ledger itself performs no logging; the caller emits one of these
//! records after the corresponding operation succeeds.  They are plain
//! data, named and laid out after the operations that produce them.

use vstd::prelude::*;

use crate::state::AccountId;

verus! {

/// An accepted commit: who committed what, under which proof.
#[derive(Clone, Copy, Debug)]
pub struct ResourcesCommitted {
    /// The committing participant.
    pub user: AccountId,
    /// Credits granted by the proof.
    pub points: u64,
    /// Contributed raise currency.
    pub sol_amount: u64,
    /// Score granted (equal to the contributed amount).
    pub score: u64,
    /// The proof's replay nonce.
    pub proof_nonce: u64,
    /// The backend's signature over the proof message.
    pub backend_signature: [u8; 64],
    /// The proof's expiry timestamp.
    pub expiry: i64,
}

/// A successful claim and the amount paid out.
#[derive(Clone, Copy, Debug)]
pub struct TokensClaimed {
    /// The claiming participant.
    pub user: AccountId,
    /// Tokens transferred.
    pub amount: u64,
}

/// The token vault was funded.
#[derive(Clone, Copy, Debug)]
pub struct VaultFunded {
    /// The funding authority.
    pub authority: AccountId,
    /// Tokens moved into the vault.
    pub amount: u64,
    /// The pool size after funding.
    pub total_pool: u64,
}

/// The commit window was moved.
#[derive(Clone, Copy, Debug)]
pub struct CommitEndTimeUpdated {
    /// The authority that moved it.
    pub authority: AccountId,
    /// The new end of the window.
    pub new_end_time: i64,
}

/// Custody funds were withdrawn.
#[derive(Clone, Copy, Debug)]
pub struct SolWithdrawn {
    /// The withdrawing authority.
    pub authority: AccountId,
    /// Amount withdrawn.
    pub amount: u64,
    /// Custody balance left after the withdrawal.
    pub remaining_balance: u64,
}

/// A commit pushed the total raised to (or past) the target.
#[derive(Clone, Copy, Debug)]
pub struct TargetSolReached {
    /// The total after the latching commit.
    pub total_sol_raised: u64,
    /// The configured target.
    pub target_raise_sol: u64,
}

/// The token vault was created.
#[derive(Clone, Copy, Debug)]
pub struct TokenVaultCreated {
    /// The creating authority.
    pub authority: AccountId,
    /// The vault's identity.
    pub token_vault: AccountId,
    /// The token mint the vault holds.
    pub mint: AccountId,
}

/// The backend authority record was created.
#[derive(Clone, Copy, Debug)]
pub struct BackendAuthorityInitialized {
    /// The owning authority.
    pub authority: AccountId,
    /// The backend's public key.
    pub backend_pubkey: AccountId,
}

/// The backend's active flag was toggled.
#[derive(Clone, Copy, Debug)]
pub struct BackendAuthorityUpdated {
    /// The toggling authority.
    pub authority: AccountId,
    /// The new active status.
    pub is_active: bool,
}

/// The backend's public key was rotated.
#[derive(Clone, Copy, Debug)]
pub struct BackendPubkeyUpdated {
    /// The rotating authority.
    pub authority: AccountId,
    /// The key before the rotation.
    pub old_pubkey: AccountId,
    /// The key after the rotation.
    pub new_pubkey: AccountId,
}

} // verus!
