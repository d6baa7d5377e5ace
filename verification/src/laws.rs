use vstd::prelude::*;

use crate::calculator::{capped_reward, elapsed_hours, raw_reward, spec_calculate_rewards};
use crate::claim::spec_claim_outcome;
use crate::errors::ErrorCode;
use crate::state::{RewardPool, UserAccount};

verus! {

/// For any user whose elapsed whole hours fall short of the pool's minimum
/// claim interval, calculation fails with `ClaimTooSoon` — provided both
/// activity gates are open, since a closed gate is reported first.
pub proof fn lemma_accrual_gate(pool: RewardPool, user: UserAccount, now: i64)
    requires
        pool.is_active,
        user.is_active,
        elapsed_hours(user, now) < pool.min_claim_interval_hours,
    ensures
        spec_calculate_rewards(pool, user, now) == Err::<u64, ErrorCode>(ErrorCode::ClaimTooSoon),
{
}

/// Whatever a claim pays is exactly the accrual clamped to the per-claim cap,
/// and in particular never exceeds `max_daily_reward`.
pub proof fn lemma_cap(pool: RewardPool, user: UserAccount, now: i64, expected: u64, amount: u64)
    requires
        spec_claim_outcome(pool, user, now, expected) == Ok::<u64, ErrorCode>(amount),
    ensures
        amount == capped_reward(pool, user, now),
        amount <= pool.max_daily_reward,
        raw_reward(pool, user, now) <= pool.max_daily_reward ==> amount == raw_reward(
            pool,
            user,
            now,
        ),
{
}

/// Quoting is idempotent: calculation has no side effects and its outcome is
/// a function of the pool, the user and the clock alone, so two calculations
/// with no elapsed time and no intervening claim between them agree.
pub proof fn lemma_idempotent_quote(
    pool1: RewardPool,
    user1: UserAccount,
    now1: i64,
    pool2: RewardPool,
    user2: UserAccount,
    now2: i64,
)
    requires
        pool1 == pool2,
        user1 == user2,
        now1 == now2,
    ensures
        spec_calculate_rewards(pool1, user1, now1) == spec_calculate_rewards(pool2, user2, now2),
{
}

/// A claim attempt whose `expected_amount` differs from the freshly
/// recomputed amount fails with `AmountMismatch`, however the expectation was
/// obtained — a quote is stale the moment the recomputation disagrees.
pub proof fn lemma_mismatch_guard(
    pool: RewardPool,
    user: UserAccount,
    now: i64,
    expected: u64,
    amount: u64,
)
    requires
        spec_calculate_rewards(pool, user, now) == Ok::<u64, ErrorCode>(amount),
        expected != amount,
    ensures
        spec_claim_outcome(pool, user, now, expected) == Err::<u64, ErrorCode>(
            ErrorCode::AmountMismatch,
        ),
{
}

/// The sum of `total_earned` over a pool's user records.
pub open spec fn sum_earned(users: Seq<UserAccount>) -> int
    decreases users.len(),
{
    if users.len() == 0 {
        0
    } else {
        sum_earned(users.drop_last()) + users.last().total_earned
    }
}

/// Replacing one record changes the sum by the difference at that record.
pub proof fn lemma_sum_earned_update(users: Seq<UserAccount>, i: int, user: UserAccount)
    requires
        0 <= i < users.len(),
    ensures
        sum_earned(users.update(i, user)) == sum_earned(users) - users[i].total_earned
            + user.total_earned,
    decreases users.len(),
{
    let updated = users.update(i, user);
    if i == users.len() - 1 {
        assert(updated.drop_last() =~= users.drop_last());
    } else {
        assert(updated.drop_last() =~= users.drop_last().update(i, user));
        lemma_sum_earned_update(users.drop_last(), i, user);
    }
}

/// Appending a record adds its earnings to the sum.
pub proof fn lemma_sum_earned_push(users: Seq<UserAccount>, user: UserAccount)
    ensures
        sum_earned(users.push(user)) == sum_earned(users) + user.total_earned,
{
    assert(users.push(user).drop_last() =~= users);
}

/// Counter conservation holds of a freshly initialized pool: it has
/// distributed nothing and has no user records.
pub proof fn lemma_conservation_initial(pool: RewardPool)
    requires
        pool.total_distributed == 0,
    ensures
        pool.total_distributed == sum_earned(Seq::<UserAccount>::empty()),
{
}

/// Registration preserves counter conservation: the new record has earned
/// nothing, so the sum over the pool's records is unchanged.
pub proof fn lemma_conservation_register(
    pool: RewardPool,
    users: Seq<UserAccount>,
    user: UserAccount,
)
    requires
        pool.total_distributed == sum_earned(users),
        user.total_earned == 0,
    ensures
        pool.total_distributed == sum_earned(users.push(user)),
{
    lemma_sum_earned_push(users, user);
}

/// A successful claim preserves counter conservation: it adds the same amount
/// to one user's `total_earned` and to the pool's `total_distributed`, so
/// after any sequence of successful claims the pool's distribution counter
/// still equals the sum of its users' earnings. (Emergency withdrawals touch
/// neither side and so preserve this equation as well — what they drain is
/// the vault's balance, which this equation deliberately does not mention.)
pub proof fn lemma_conservation_claim(
    pool_before: RewardPool,
    pool_after: RewardPool,
    users: Seq<UserAccount>,
    i: int,
    user_after: UserAccount,
    amount: u64,
)
    requires
        0 <= i < users.len(),
        pool_before.total_distributed == sum_earned(users),
        user_after.total_earned == users[i].total_earned + amount,
        pool_after.total_distributed == pool_before.total_distributed + amount,
    ensures
        pool_after.total_distributed == sum_earned(users.update(i, user_after)),
{
    lemma_sum_earned_update(users, i, user_after);
}

} // verus!
