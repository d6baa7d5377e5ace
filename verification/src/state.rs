use vstd::prelude::*;

use crate::errors::ErrorCode;

verus! {

/// Shared configuration and aggregate counters governing reward accrual for
/// all participants of one pool. Identities (`authority`, `mint`, `vault`)
/// are opaque handles assigned by the host's record store; the core only
/// compares them and passes them on.
#[derive(Clone, Copy, Debug, PartialEq, Eq, Structural)]
pub struct RewardPool {
    /// Identity permitted to administer the pool.
    pub authority: u64,
    /// Opaque reference to the token type distributed by this pool.
    pub mint: u64,
    /// Opaque reference to the custody account holding distributable tokens.
    pub vault: u64,
    /// Amount accrued per elapsed whole hour.
    pub reward_rate_per_hour: u64,
    /// Minimum elapsed whole hours before a claim is honored.
    pub min_claim_interval_hours: u64,
    /// Upper bound applied to any single claim's computed amount.
    /// Despite the name this is a per-claim cap, not a rolling daily cap:
    /// the gating interval is configured independently and need not be 24h.
    pub max_daily_reward: u64,
    /// Sum of all amounts ever paid out through claims; non-decreasing.
    pub total_distributed: u64,
    /// Count of registered users; non-decreasing.
    pub participant_count: u64,
    /// When false, calculation and claiming are refused.
    pub is_active: bool,
    /// Timestamp at initialization, immutable thereafter.
    pub created_at: i64,
}

/// Per-participant accrual record, one per (pool, participant) pair.
#[derive(Clone, Copy, Debug, PartialEq, Eq, Structural)]
pub struct UserAccount {
    /// Identity of the participant who owns this record.
    pub authority: u64,
    /// Sum of all amounts this user ever claimed; non-decreasing.
    pub total_earned: u64,
    /// Number of successful claims; non-decreasing.
    pub total_claims: u64,
    /// 0 is a sentinel meaning "never claimed"; after the first successful
    /// claim, the timestamp of the most recent claim.
    pub last_claim_timestamp: i64,
    /// Set once at registration, immutable thereafter.
    pub registration_timestamp: i64,
    /// When false, calculation and claiming are refused for this user.
    pub is_active: bool,
}

impl RewardPool {
    /// Well-formedness: timestamps never precede the epoch.
    pub open spec fn wf(self) -> bool {
        0 <= self.created_at
    }
}

impl UserAccount {
    /// Well-formedness: timestamps never precede the epoch, and a recorded
    /// claim never precedes the registration.
    pub open spec fn wf(self) -> bool {
        &&& 0 <= self.registration_timestamp
        &&& 0 <= self.last_claim_timestamp
        &&& self.last_claim_timestamp != 0 ==> self.registration_timestamp
            <= self.last_claim_timestamp
    }

    /// The clock source is monotonically non-decreasing, so any `now` it
    /// hands an operation lies at or after every timestamp already recorded
    /// in this account.
    pub open spec fn observed_by(self, now: i64) -> bool {
        &&& self.registration_timestamp <= now
        &&& self.last_claim_timestamp <= now
    }
}

/// One-time creation of a pool: all counters zeroed, gate open, configuration
/// taken verbatim. Rejection of a duplicate pool key is the record store's
/// concern, not the core's.
pub fn initialize_pool(
    authority: u64,
    mint: u64,
    vault: u64,
    reward_rate_per_hour: u64,
    min_claim_interval_hours: u64,
    max_daily_reward: u64,
    now: i64,
) -> (pool: RewardPool)
    requires
        0 <= now,
    ensures
        pool == (RewardPool {
            authority,
            mint,
            vault,
            reward_rate_per_hour,
            min_claim_interval_hours,
            max_daily_reward,
            total_distributed: 0,
            participant_count: 0,
            is_active: true,
            created_at: now,
        }),
        pool.wf(),
{
    RewardPool {
        authority,
        mint,
        vault,
        reward_rate_per_hour,
        min_claim_interval_hours,
        max_daily_reward,
        total_distributed: 0,
        participant_count: 0,
        is_active: true,
        created_at: now,
    }
}

/// Registration: creates a fresh, active user record with zeroed counters and
/// the never-claimed sentinel, and counts the participant in the pool. The
/// only failure is participant-counter overflow, which leaves the pool
/// untouched. Rejection of a duplicate registration is the record store's
/// concern, not the core's.
pub fn register_user(pool: &mut RewardPool, authority: u64, now: i64) -> (r: Result<
    UserAccount,
    ErrorCode,
>)
    requires
        0 <= now,
    ensures
        match r {
            Ok(user) => {
                &&& old(pool).participant_count < u64::MAX
                &&& user == (UserAccount {
                    authority,
                    total_earned: 0,
                    total_claims: 0,
                    last_claim_timestamp: 0,
                    registration_timestamp: now,
                    is_active: true,
                })
                &&& user.wf()
                &&& user.observed_by(now)
                &&& *final(pool) == (RewardPool {
                    participant_count: (old(pool).participant_count + 1) as u64,
                    ..*old(pool)
                })
            },
            Err(e) => {
                &&& e == ErrorCode::ArithmeticOverflow
                &&& old(pool).participant_count == u64::MAX
                &&& *final(pool) == *old(pool)
            },
        },
{
    match pool.participant_count.checked_add(1) {
        Some(count) => {
            pool.participant_count = count;
            Ok(
                UserAccount {
                    authority,
                    total_earned: 0,
                    total_claims: 0,
                    last_claim_timestamp: 0,
                    registration_timestamp: now,
                    is_active: true,
                },
            )
        },
        None => Err(ErrorCode::ArithmeticOverflow),
    }
}

} // verus!
