//! The ledger's laws, proved against the transitions of `lifecycle`.
//!
//! Everything here is ghost: these lemmas state what holds of every run of
//! the commit and claim transitions — exact accumulation of the totals,
//! replay protection, companion-message binding, claim idempotence, the
//! target latch, and the dust bound of the pro-rata split.

use vstd::prelude::*;

use crate::companion::BatchInstruction;
use crate::companion::spec_companion_ok;
use crate::companion::spec_nearest_verifier;
use crate::errors::ErrorCode;
use crate::lifecycle::spec_claim;
use crate::lifecycle::spec_commit;
use crate::proof_message::spec_proof_message;
use crate::prorata::spec_claim_amount;
use crate::state::AccountId;
use crate::state::BackendAuthority;
use crate::state::DistributionState;
use crate::state::UserCommitment;

verus! {

/// One commit request: everything the commit transition inspects besides
/// the three ledger records.
pub struct CommitRequest {
    /// The committing participant.
    pub user: AccountId,
    /// Credits claimed by the proof.
    pub points: u64,
    /// Contributed raise currency.
    pub sol_amount: u64,
    /// The backend's signature over the canonical proof message.
    pub signature: Seq<u8>,
    /// The proof's replay nonce.
    pub nonce: u64,
    /// The proof's expiry timestamp.
    pub expiry: i64,
    /// The clock at execution time.
    pub now: i64,
    /// The atomic batch the commit executes in.
    pub instrs: Seq<BatchInstruction>,
    /// The commit's own position in the batch.
    pub current: int,
}

/// The record a participant starts from: all counters zero, unclaimed.
pub open spec fn spec_fresh_commitment(user: AccountId) -> UserCommitment {
    UserCommitment { user: user, points: 0, sol_amount: 0, score: 0, tokens_claimed: false }
}

/// The commitment record a request runs against: the stored one, or a
/// fresh one created lazily on first commit.
pub open spec fn spec_user_record(
    ucs: Map<AccountId, UserCommitment>,
    user: AccountId,
) -> UserCommitment {
    if ucs.dom().contains(user) {
        ucs[user]
    } else {
        spec_fresh_commitment(user)
    }
}

/// `spec_commit` applied to one request.
pub open spec fn spec_commit_req(
    ds: DistributionState,
    uc: UserCommitment,
    ba: BackendAuthority,
    req: CommitRequest,
) -> Result<(DistributionState, UserCommitment, BackendAuthority), ErrorCode> {
    spec_commit(
        ds,
        uc,
        ba,
        req.user,
        req.points,
        req.sol_amount,
        req.signature,
        req.nonce,
        req.expiry,
        req.now,
        req.instrs,
        req.current,
    )
}

/// The ledger after running a sequence of commit requests in order: each
/// accepted request updates the three records, each rejected one leaves
/// them untouched.
pub open spec fn spec_run_commits(
    ds: DistributionState,
    ucs: Map<AccountId, UserCommitment>,
    ba: BackendAuthority,
    reqs: Seq<CommitRequest>,
) -> (DistributionState, Map<AccountId, UserCommitment>, BackendAuthority)
    decreases reqs.len(),
{
    if reqs.len() == 0 {
        (ds, ucs, ba)
    } else {
        let req = reqs[0];
        match spec_commit_req(ds, spec_user_record(ucs, req.user), ba, req) {
            Ok(t) => spec_run_commits(t.0, ucs.insert(req.user, t.1), t.2, reqs.drop_first()),
            Err(_) => spec_run_commits(ds, ucs, ba, reqs.drop_first()),
        }
    }
}

/// The exact sum of the contributed amounts of the requests that the run
/// accepts.
pub open spec fn spec_accepted_sum(
    ds: DistributionState,
    ucs: Map<AccountId, UserCommitment>,
    ba: BackendAuthority,
    reqs: Seq<CommitRequest>,
) -> int
    decreases reqs.len(),
{
    if reqs.len() == 0 {
        0
    } else {
        let req = reqs[0];
        match spec_commit_req(ds, spec_user_record(ucs, req.user), ba, req) {
            Ok(t) => req.sol_amount + spec_accepted_sum(
                t.0,
                ucs.insert(req.user, t.1),
                t.2,
                reqs.drop_first(),
            ),
            Err(_) => spec_accepted_sum(ds, ucs, ba, reqs.drop_first()),
        }
    }
}

/// Accumulation law: after any sequence of commits, the total raised has
/// grown by exactly the sum of the accepted contributed amounts, and the
/// total score by the same sum (score is the contributed amount).  No
/// rejected request moves either total.
pub proof fn lemma_totals_are_sum_of_accepted(
    ds: DistributionState,
    ucs: Map<AccountId, UserCommitment>,
    ba: BackendAuthority,
    reqs: Seq<CommitRequest>,
)
    ensures
        spec_run_commits(ds, ucs, ba, reqs).0.total_sol_raised == ds.total_sol_raised
            + spec_accepted_sum(ds, ucs, ba, reqs),
        spec_run_commits(ds, ucs, ba, reqs).0.total_score == ds.total_score + spec_accepted_sum(
            ds,
            ucs,
            ba,
            reqs,
        ),
    decreases reqs.len(),
{
    if reqs.len() == 0 {
    } else {
        let req = reqs[0];
        match spec_commit_req(ds, spec_user_record(ucs, req.user), ba, req) {
            Ok(t) => {
                lemma_totals_are_sum_of_accepted(
                    t.0,
                    ucs.insert(req.user, t.1),
                    t.2,
                    reqs.drop_first(),
                );
            },
            Err(_) => {
                lemma_totals_are_sum_of_accepted(ds, ucs, ba, reqs.drop_first());
            },
        }
    }
}

/// Ledger consistency: every stored score is bounded by the total score.
/// Together with `prorata::lemma_claim_amount_bounded` this means a claim
/// on a consistent ledger can never overflow.
pub open spec fn spec_scores_bounded(
    ds: DistributionState,
    ucs: Map<AccountId, UserCommitment>,
) -> bool {
    forall|u: AccountId| ucs.dom().contains(u) ==> #[trigger] ucs[u].score <= ds.total_score
}

/// Score-bound preservation: a ledger whose stored scores are bounded by
/// the total keeps that bound across any sequence of commits.
pub proof fn lemma_scores_stay_bounded(
    ds: DistributionState,
    ucs: Map<AccountId, UserCommitment>,
    ba: BackendAuthority,
    reqs: Seq<CommitRequest>,
)
    requires
        spec_scores_bounded(ds, ucs),
    ensures
        spec_scores_bounded(
            spec_run_commits(ds, ucs, ba, reqs).0,
            spec_run_commits(ds, ucs, ba, reqs).1,
        ),
    decreases reqs.len(),
{
    if reqs.len() == 0 {
    } else {
        let req = reqs[0];
        match spec_commit_req(ds, spec_user_record(ucs, req.user), ba, req) {
            Ok(t) => {
                assert(spec_scores_bounded(t.0, ucs.insert(req.user, t.1)));
                lemma_scores_stay_bounded(t.0, ucs.insert(req.user, t.1), t.2, reqs.drop_first());
            },
            Err(_) => {
                lemma_scores_stay_bounded(ds, ucs, ba, reqs.drop_first());
            },
        }
    }
}

/// Replay-counter monotonicity: the nonce high-water mark never decreases
/// across any sequence of commits.
pub proof fn lemma_nonce_counter_monotonic(
    ds: DistributionState,
    ucs: Map<AccountId, UserCommitment>,
    ba: BackendAuthority,
    reqs: Seq<CommitRequest>,
)
    ensures
        spec_run_commits(ds, ucs, ba, reqs).2.nonce_counter >= ba.nonce_counter,
    decreases reqs.len(),
{
    if reqs.len() == 0 {
    } else {
        let req = reqs[0];
        match spec_commit_req(ds, spec_user_record(ucs, req.user), ba, req) {
            Ok(t) => {
                lemma_nonce_counter_monotonic(
                    t.0,
                    ucs.insert(req.user, t.1),
                    t.2,
                    reqs.drop_first(),
                );
            },
            Err(_) => {
                lemma_nonce_counter_monotonic(ds, ucs, ba, reqs.drop_first());
            },
        }
    }
}

/// Replay protection: while the backend is active, a proof whose nonce
/// does not exceed the replay counter is rejected as `InvalidNonce`,
/// whatever the signature, batch or ledger contents.
pub proof fn lemma_nonce_replay_rejected(
    ds: DistributionState,
    uc: UserCommitment,
    ba: BackendAuthority,
    user: AccountId,
    points: u64,
    sol_amount: u64,
    signature: Seq<u8>,
    nonce: u64,
    expiry: i64,
    now: i64,
    instrs: Seq<BatchInstruction>,
    current: int,
)
    requires
        ba.is_active,
        nonce <= ba.nonce_counter,
    ensures
        spec_commit(ds, uc, ba, user, points, sol_amount, signature, nonce, expiry, now, instrs, current)
            == Err::<(DistributionState, UserCommitment, BackendAuthority), ErrorCode>(
            ErrorCode::InvalidNonce,
        ),
{
}

/// Companion-message binding: if the message attested by the nearest
/// preceding verification record differs from the canonical proof message
/// in even a single byte, the commit is rejected as
/// `Ed25519VerificationFailed`.
pub proof fn lemma_message_mismatch_rejected(
    ds: DistributionState,
    uc: UserCommitment,
    ba: BackendAuthority,
    user: AccountId,
    points: u64,
    sol_amount: u64,
    signature: Seq<u8>,
    nonce: u64,
    expiry: i64,
    now: i64,
    instrs: Seq<BatchInstruction>,
    current: int,
    j: int,
    k: int,
)
    requires
        ba.is_active,
        nonce > ba.nonce_counter,
        expiry > now,
        spec_nearest_verifier(instrs, current) == Some(j),
        0 <= j < instrs.len(),
        instrs[j].data@.len() >= 112,
        ({
            let recorded = instrs[j].data@.subrange(112, instrs[j].data@.len() as int);
            let message = spec_proof_message(user@, points, nonce, expiry);
            0 <= k < recorded.len() && k < message.len() && recorded[k] != message[k]
        }),
    ensures
        spec_commit(ds, uc, ba, user, points, sol_amount, signature, nonce, expiry, now, instrs, current)
            == Err::<(DistributionState, UserCommitment, BackendAuthority), ErrorCode>(
            ErrorCode::Ed25519VerificationFailed,
        ),
{
    let recorded = instrs[j].data@.subrange(112, instrs[j].data@.len() as int);
    let message = spec_proof_message(user@, points, nonce, expiry);
    assert(recorded != message);
    assert(!spec_companion_ok(instrs, current, ba.backend_pubkey@, signature, message));
}

/// Claim idempotence: after any successful claim, a second claim against
/// the same record always fails with `AlreadyClaimed`.
pub proof fn lemma_claim_idempotent(ds: DistributionState, uc: UserCommitment)
    ensures
        match spec_claim(ds, uc) {
            Ok(t) => spec_claim(ds, t.0) == Err::<(UserCommitment, u64), ErrorCode>(
                ErrorCode::AlreadyClaimed,
            ),
            Err(_) => true,
        },
{
}

/// Target latch: an accepted commit leaves the distribution open exactly
/// when the new total is still below the target; the commit that reaches
/// the target closes it within the same transition.
pub proof fn lemma_target_latch_closes(
    ds: DistributionState,
    uc: UserCommitment,
    ba: BackendAuthority,
    user: AccountId,
    points: u64,
    sol_amount: u64,
    signature: Seq<u8>,
    nonce: u64,
    expiry: i64,
    now: i64,
    instrs: Seq<BatchInstruction>,
    current: int,
)
    ensures
        match spec_commit(
            ds,
            uc,
            ba,
            user,
            points,
            sol_amount,
            signature,
            nonce,
            expiry,
            now,
            instrs,
            current,
        ) {
            Ok(t) => t.0.is_active <==> t.0.total_sol_raised < t.0.target_raise_sol,
            Err(_) => true,
        },
{
}

/// Once the distribution is closed — or the target already met while the
/// flag still reads true — a commit whose proof-stage gates all pass is
/// rejected with `DistributionNotActive` or `TargetSolReached`; in
/// particular any commit after the latch of `lemma_target_latch_closes`.
pub proof fn lemma_closed_commit_rejected(
    ds: DistributionState,
    uc: UserCommitment,
    ba: BackendAuthority,
    user: AccountId,
    points: u64,
    sol_amount: u64,
    signature: Seq<u8>,
    nonce: u64,
    expiry: i64,
    now: i64,
    instrs: Seq<BatchInstruction>,
    current: int,
)
    requires
        ba.is_active,
        nonce > ba.nonce_counter,
        expiry > now,
        spec_companion_ok(
            instrs,
            current,
            ba.backend_pubkey@,
            signature,
            spec_proof_message(user@, points, nonce, expiry),
        ),
        !ds.is_active || (ds.total_sol_raised >= ds.target_raise_sol && now
            < ds.commit_end_time),
    ensures
        spec_commit(ds, uc, ba, user, points, sol_amount, signature, nonce, expiry, now, instrs, current)
            == Err::<(DistributionState, UserCommitment, BackendAuthority), ErrorCode>(
            ErrorCode::DistributionNotActive,
        ) || spec_commit(
            ds,
            uc,
            ba,
            user,
            points,
            sol_amount,
            signature,
            nonce,
            expiry,
            now,
            instrs,
            current,
        ) == Err::<(DistributionState, UserCommitment, BackendAuthority), ErrorCode>(
            ErrorCode::TargetSolReached,
        ),
{
}

/// Sum of a sequence of contribution scores.
pub open spec fn spec_sum(scores: Seq<u64>) -> int
    decreases scores.len(),
{
    if scores.len() == 0 {
        0
    } else {
        scores[0] + spec_sum(scores.drop_first())
    }
}

/// Sum of the floor-rounded pro-rata claims of a sequence of scores.
pub open spec fn spec_claims_total(pool: u64, scores: Seq<u64>, total_score: u64) -> int
    decreases scores.len(),
{
    if scores.len() == 0 {
        0
    } else {
        spec_claim_amount(pool, scores[0], total_score) + spec_claims_total(
            pool,
            scores.drop_first(),
            total_score,
        )
    }
}

proof fn lemma_sum_nonneg(scores: Seq<u64>)
    ensures
        spec_sum(scores) >= 0,
    decreases scores.len(),
{
    if scores.len() > 0 {
        lemma_sum_nonneg(scores.drop_first());
    }
}

/// Integer division distributes over addition up to one unit of rounding:
/// a/t + b/t <= (a+b)/t <= a/t + b/t + 1.
proof fn lemma_div_superadd(a: int, b: int, t: int)
    requires
        0 <= a,
        0 <= b,
        0 < t,
    ensures
        a / t + b / t <= (a + b) / t,
        (a + b) / t <= a / t + b / t + 1,
{
    vstd::arithmetic::div_mod::lemma_fundamental_div_mod(a, t);
    vstd::arithmetic::div_mod::lemma_fundamental_div_mod(b, t);
    vstd::arithmetic::div_mod::lemma_mod_bound(a, t);
    vstd::arithmetic::div_mod::lemma_mod_bound(b, t);
    let qa = a / t;
    let ra = a % t;
    let qb = b / t;
    let rb = b % t;
    vstd::arithmetic::mul::lemma_mul_is_distributive_add(t, qa, qb);
    if ra + rb < t {
        vstd::arithmetic::div_mod::lemma_fundamental_div_mod_converse(a + b, t, qa + qb, ra + rb);
    } else {
        vstd::arithmetic::mul::lemma_mul_is_distributive_add(t, qa + qb, 1);
        vstd::arithmetic::div_mod::lemma_fundamental_div_mod_converse(
            a + b,
            t,
            qa + qb + 1,
            ra + rb - t,
        );
    }
}

proof fn lemma_claims_total_bounds(pool: u64, scores: Seq<u64>, total_score: u64)
    requires
        0 < total_score,
    ensures
        spec_claims_total(pool, scores, total_score) <= (pool * spec_sum(scores)) / (
        total_score as int),
        spec_claims_total(pool, scores, total_score) + scores.len() >= (pool * spec_sum(scores))
            / (total_score as int),
    decreases scores.len(),
{
    if scores.len() == 0 {
        assert(pool * spec_sum(scores) == 0) by (nonlinear_arith)
            requires
                spec_sum(scores) == 0,
        ;
        vstd::arithmetic::div_mod::lemma_fundamental_div_mod_converse(0, total_score as int, 0, 0);
    } else {
        let rest = scores.drop_first();
        lemma_claims_total_bounds(pool, rest, total_score);
        lemma_sum_nonneg(rest);
        let a = pool * scores[0];
        let b = pool * spec_sum(rest);
        assert(0 <= a && 0 <= b) by (nonlinear_arith)
            requires
                0 <= pool,
                0 <= scores[0],
                0 <= spec_sum(rest),
                a == pool * scores[0],
                b == pool * spec_sum(rest),
        ;
        vstd::arithmetic::mul::lemma_mul_is_distributive_add(
            pool as int,
            scores[0] as int,
            spec_sum(rest),
        );
        lemma_div_superadd(a, b, total_score as int);
    }
}

/// Dust bound: when every participant claims once and the individual
/// scores sum to the recorded total, the floor-rounded claims never exceed
/// the pool, and the undistributed remainder is at most one minimal unit
/// per claimant.
pub proof fn lemma_claims_sum_bounded(pool: u64, scores: Seq<u64>, total_score: u64)
    requires
        0 < total_score,
        spec_sum(scores) == total_score,
    ensures
        spec_claims_total(pool, scores, total_score) <= pool,
        pool <= spec_claims_total(pool, scores, total_score) + scores.len(),
{
    lemma_claims_total_bounds(pool, scores, total_score);
    vstd::arithmetic::mul::lemma_mul_is_commutative(pool as int, total_score as int);
    vstd::arithmetic::div_mod::lemma_div_multiples_vanish(pool as int, total_score as int);
}

} // verus!
