use vstd::prelude::*;

use crate::calculator::{calculate_rewards, spec_calculate_rewards};
use crate::errors::{ErrorCode, TransferError};
use crate::state::{RewardPool, UserAccount};

verus! {

/// The token-transfer collaborator: moves `amount` units from the custody
/// account `from` to `to` on behalf of `authorized_by`. The host derives the
/// pool's signing key from the authorizing identity; the core never holds key
/// material. A transfer is all-or-nothing: on `Err` nothing was moved. The
/// core treats every call as fallible and promises nothing of the outcome.
pub trait TokenTransferPort {
    fn transfer(&mut self, from: u64, to: u64, authorized_by: u64, amount: u64) -> Result<
        (),
        TransferError,
    >;
}

/// The full outcome of a claim attempt, short of the transfer itself: the
/// recomputed amount must match the caller's expectation exactly and be
/// positive, and every counter the commit touches must have room.
pub open spec fn spec_claim_outcome(
    pool: RewardPool,
    user: UserAccount,
    now: i64,
    expected_amount: u64,
) -> Result<u64, ErrorCode> {
    match spec_calculate_rewards(pool, user, now) {
        Err(e) => Err(e),
        Ok(amount) => if expected_amount != amount {
            Err(ErrorCode::AmountMismatch)
        } else if amount == 0 {
            Err(ErrorCode::NoRewardsAvailable)
        } else if user.total_earned + amount > u64::MAX || user.total_claims + 1 > u64::MAX
            || pool.total_distributed + amount > u64::MAX {
            Err(ErrorCode::ArithmeticOverflow)
        } else {
            Ok(amount)
        },
    }
}

/// Claim processing: recomputes the owed amount from scratch (never trusting
/// an earlier quote), cross-checks it against `expected_amount`, requests the
/// token transfer from the pool's vault to `destination`, and only then
/// commits the counter mutations. The operation is all-or-nothing: on any
/// failure, a refused transfer included, neither the pool nor the user
/// changes. On success it returns the amount paid.
///
/// This is the only path that mutates `total_earned`, `total_claims`,
/// `last_claim_timestamp` or `total_distributed`.
pub fn claim_rewards<P: TokenTransferPort>(
    pool: &mut RewardPool,
    user: &mut UserAccount,
    destination: u64,
    now: i64,
    expected_amount: u64,
    port: &mut P,
) -> (r: Result<u64, ErrorCode>)
    requires
        old(user).wf(),
        old(user).observed_by(now),
    ensures
        match r {
            Ok(amount) => {
                &&& spec_claim_outcome(*old(pool), *old(user), now, expected_amount) == Ok::<
                    u64,
                    ErrorCode,
                >(amount)
                &&& amount == expected_amount
                &&& 0 < amount
                &&& *final(user) == (UserAccount {
                    total_earned: (old(user).total_earned + amount) as u64,
                    total_claims: (old(user).total_claims + 1) as u64,
                    last_claim_timestamp: now,
                    ..*old(user)
                })
                &&& *final(pool) == (RewardPool {
                    total_distributed: (old(pool).total_distributed + amount) as u64,
                    ..*old(pool)
                })
                &&& final(user).wf()
                &&& final(user).observed_by(now)
            },
            Err(e) => {
                &&& *final(pool) == *old(pool)
                &&& *final(user) == *old(user)
                &&& match spec_claim_outcome(*old(pool), *old(user), now, expected_amount) {
                    // Validation decided; the claim fails exactly as it says.
                    Err(e0) => e == e0,
                    // Validation passed, so only the collaborator can have
                    // refused; nothing pins when it does.
                    Ok(_) => e == ErrorCode::TransferFailed,
                }
            },
        },
{
    let amount = match calculate_rewards(pool, user, now) {
        Ok(amount) => amount,
        Err(e) => {
            return Err(e);
        },
    };
    if expected_amount != amount {
        return Err(ErrorCode::AmountMismatch);
    }
    if amount == 0 {
        return Err(ErrorCode::NoRewardsAvailable);
    }
    // Establish counter headroom before the transfer, so that once tokens
    // have moved the commit below can no longer fail.
    let new_total_earned = match user.total_earned.checked_add(amount) {
        Some(v) => v,
        None => {
            return Err(ErrorCode::ArithmeticOverflow);
        },
    };
    let new_total_claims = match user.total_claims.checked_add(1) {
        Some(v) => v,
        None => {
            return Err(ErrorCode::ArithmeticOverflow);
        },
    };
    let new_total_distributed = match pool.total_distributed.checked_add(amount) {
        Some(v) => v,
        None => {
            return Err(ErrorCode::ArithmeticOverflow);
        },
    };
    match port.transfer(pool.vault, destination, pool.authority, amount) {
        Ok(()) => {},
        Err(_) => {
            return Err(ErrorCode::TransferFailed);
        },
    }
    user.total_earned = new_total_earned;
    user.total_claims = new_total_claims;
    user.last_claim_timestamp = now;
    pool.total_distributed = new_total_distributed;
    Ok(amount)
}

} // verus!
