use vstd::prelude::*;

use crate::errors::ErrorCode;
use crate::state::{RewardPool, UserAccount};

verus! {

/// The timestamp from which the current accrual period is measured: the last
/// successful claim, or the registration when the user has never claimed.
pub open spec fn claim_basis(user: UserAccount) -> int {
    if user.last_claim_timestamp == 0 {
        user.registration_timestamp as int
    } else {
        user.last_claim_timestamp as int
    }
}

/// Whole hours elapsed since the accrual basis; partial hours do not accrue.
pub open spec fn elapsed_hours(user: UserAccount, now: i64) -> int {
    (now - claim_basis(user)) / 3600
}

/// The uncapped accrual: elapsed whole hours times the pool's hourly rate.
pub open spec fn raw_reward(pool: RewardPool, user: UserAccount, now: i64) -> int {
    elapsed_hours(user, now) * pool.reward_rate_per_hour
}

/// The amount a claim pays: the accrual, clamped to the per-claim cap.
pub open spec fn capped_reward(pool: RewardPool, user: UserAccount, now: i64) -> int {
    if raw_reward(pool, user, now) <= pool.max_daily_reward {
        raw_reward(pool, user, now)
    } else {
        pool.max_daily_reward as int
    }
}

/// The full outcome of a reward calculation: both activity gates must be
/// open, the minimum claim interval must have elapsed, and the uncapped
/// accrual must fit the counter width; then the capped amount is owed.
pub open spec fn spec_calculate_rewards(pool: RewardPool, user: UserAccount, now: i64) -> Result<
    u64,
    ErrorCode,
> {
    if !pool.is_active {
        Err(ErrorCode::PoolNotActive)
    } else if !user.is_active {
        Err(ErrorCode::UserNotActive)
    } else if elapsed_hours(user, now) < pool.min_claim_interval_hours {
        Err(ErrorCode::ClaimTooSoon)
    } else if raw_reward(pool, user, now) > u64::MAX {
        Err(ErrorCode::ArithmeticOverflow)
    } else {
        Ok(capped_reward(pool, user, now) as u64)
    }
}

/// Advisory, read-only reward calculation: reports exactly the amount a claim
/// made at `now` would pay, without committing to anything. Callers may
/// invoke it any number of times; it has no side effects.
pub fn calculate_rewards(pool: &RewardPool, user: &UserAccount, now: i64) -> (r: Result<
    u64,
    ErrorCode,
>)
    requires
        user.wf(),
        user.observed_by(now),
    ensures
        r == spec_calculate_rewards(*pool, *user, now),
{
    if !pool.is_active {
        return Err(ErrorCode::PoolNotActive);
    }
    if !user.is_active {
        return Err(ErrorCode::UserNotActive);
    }
    let basis: i64 = if user.last_claim_timestamp == 0 {
        user.registration_timestamp
    } else {
        user.last_claim_timestamp
    };
    let hours: u64 = ((now - basis) as u64) / 3600;
    if hours < pool.min_claim_interval_hours {
        return Err(ErrorCode::ClaimTooSoon);
    }
    match hours.checked_mul(pool.reward_rate_per_hour) {
        None => Err(ErrorCode::ArithmeticOverflow),
        Some(raw) => {
            let amount: u64 = if raw <= pool.max_daily_reward {
                raw
            } else {
                pool.max_daily_reward
            };
            Ok(amount)
        },
    }
}

} // verus!
