use vstd::prelude::*;

use crate::claim::TokenTransferPort;
use crate::errors::ErrorCode;
use crate::state::RewardPool;

verus! {

/// A present field fully replaces the current value; an absent one leaves it
/// unchanged. No merging beyond that.
pub open spec fn overridden<T>(current: T, update: Option<T>) -> T {
    match update {
        Some(v) => v,
        None => current,
    }
}

/// Partial configuration update, gated on the pool's administration
/// authority. Each field is independently optional, and deliberately
/// unvalidated beyond its type bounds: operators may raise or lower any
/// parameter, including closing the pool's gate.
pub fn update_pool_config(
    pool: &mut RewardPool,
    caller: u64,
    reward_rate_per_hour: Option<u64>,
    min_claim_interval_hours: Option<u64>,
    max_daily_reward: Option<u64>,
    is_active: Option<bool>,
) -> (r: Result<(), ErrorCode>)
    ensures
        match r {
            Ok(()) => {
                &&& caller == old(pool).authority
                &&& *final(pool) == (RewardPool {
                    reward_rate_per_hour: overridden(
                        old(pool).reward_rate_per_hour,
                        reward_rate_per_hour,
                    ),
                    min_claim_interval_hours: overridden(
                        old(pool).min_claim_interval_hours,
                        min_claim_interval_hours,
                    ),
                    max_daily_reward: overridden(old(pool).max_daily_reward, max_daily_reward),
                    is_active: overridden(old(pool).is_active, is_active),
                    ..*old(pool)
                })
            },
            Err(e) => {
                &&& e == ErrorCode::Unauthorized
                &&& caller != old(pool).authority
                &&& *final(pool) == *old(pool)
            },
        },
{
    if caller != pool.authority {
        return Err(ErrorCode::Unauthorized);
    }
    if let Some(rate) = reward_rate_per_hour {
        pool.reward_rate_per_hour = rate;
    }
    if let Some(interval) = min_claim_interval_hours {
        pool.min_claim_interval_hours = interval;
    }
    if let Some(max_reward) = max_daily_reward {
        pool.max_daily_reward = max_reward;
    }
    if let Some(active) = is_active {
        pool.is_active = active;
    }
    Ok(())
}

/// Operator safety valve: moves `amount` from the pool's vault to an
/// arbitrary destination, gated only on the pool's administration authority —
/// no activity or interval checks. It deliberately does not touch
/// `total_distributed` or any user record: the amount withdrawn is not
/// attributable to any user's earned rewards, so under emergency withdrawals
/// the conservation invariant between `total_distributed` and the users'
/// `total_earned` sums is knowingly allowed to drift from the vault's actual
/// balance. The pool is taken immutably: nothing of it can change.
pub fn emergency_withdraw<P: TokenTransferPort>(
    pool: &RewardPool,
    caller: u64,
    amount: u64,
    destination: u64,
    port: &mut P,
) -> (r: Result<(), ErrorCode>)
    ensures
        match r {
            Ok(()) => caller == pool.authority,
            Err(e) => {
                &&& (e == ErrorCode::Unauthorized || e == ErrorCode::TransferFailed)
                &&& (e == ErrorCode::Unauthorized <==> caller != pool.authority)
            },
        },
{
    if caller != pool.authority {
        return Err(ErrorCode::Unauthorized);
    }
    match port.transfer(pool.vault, destination, pool.authority, amount) {
        Ok(()) => Ok(()),
        Err(_) => Err(ErrorCode::TransferFailed),
    }
}

} // verus!
