//! Funds-commitment and pro-rata token-distribution ledger.
//!
//! Participants commit value during a raise window; a backend service
//! authorizes each commitment through a signed proof that is cross-checked
//! against a companion verification record in the same atomic batch; after
//! the raise closes, participants claim a proportional share of a fixed
//! token pool.  All accounting is exact integer arithmetic with explicit
//! overflow checks.

pub mod companion;
pub mod ed25519;
pub mod errors;
pub mod events;
pub mod laws;
pub mod lifecycle;
pub mod proof_message;
pub mod prorata;
pub mod state;
