use reward_system::admin::{emergency_withdraw, update_pool_config};
use reward_system::calculator::calculate_rewards;
use reward_system::claim::TokenTransferPort;
use reward_system::errors::{ErrorCode, TransferError};
use reward_system::state::{initialize_pool, register_user};

/// Port that records every transfer it is asked to make and always succeeds.
struct LedgerPort {
    calls: Vec<(u64, u64, u64, u64)>,
}

impl TokenTransferPort for LedgerPort {
    fn transfer(
        &mut self,
        from: u64,
        to: u64,
        authorized_by: u64,
        amount: u64,
    ) -> Result<(), TransferError> {
        self.calls.push((from, to, authorized_by, amount));
        Ok(())
    }
}

/// Port that refuses every transfer.
struct ClosedPort;

impl TokenTransferPort for ClosedPort {
    fn transfer(&mut self, _: u64, _: u64, _: u64, _: u64) -> Result<(), TransferError> {
        Err(TransferError)
    }
}

#[test]
fn initialization_zeroes_counters_and_opens_gate() {
    let pool = initialize_pool(1, 2, 3, 100, 24, 2000, 55);
    assert_eq!(pool.authority, 1);
    assert_eq!(pool.mint, 2);
    assert_eq!(pool.vault, 3);
    assert_eq!(pool.reward_rate_per_hour, 100);
    assert_eq!(pool.min_claim_interval_hours, 24);
    assert_eq!(pool.max_daily_reward, 2000);
    assert_eq!(pool.total_distributed, 0);
    assert_eq!(pool.participant_count, 0);
    assert!(pool.is_active);
    assert_eq!(pool.created_at, 55);
}

#[test]
fn registration_creates_fresh_record_and_counts_it() {
    let mut pool = initialize_pool(1, 2, 3, 100, 24, 2000, 0);
    let user = register_user(&mut pool, 9, 70).unwrap();
    assert_eq!(user.authority, 9);
    assert_eq!(user.total_earned, 0);
    assert_eq!(user.total_claims, 0);
    assert_eq!(user.last_claim_timestamp, 0);
    assert_eq!(user.registration_timestamp, 70);
    assert!(user.is_active);
    assert_eq!(pool.participant_count, 1);
    let other = register_user(&mut pool, 10, 80).unwrap();
    assert_eq!(other.authority, 10);
    assert_eq!(pool.participant_count, 2);
}

#[test]
fn registration_overflow_leaves_pool_unchanged() {
    let mut pool = initialize_pool(1, 2, 3, 100, 24, 2000, 0);
    pool.participant_count = u64::MAX;
    let before = pool;
    assert_eq!(
        register_user(&mut pool, 9, 70),
        Err(ErrorCode::ArithmeticOverflow)
    );
    assert_eq!(pool, before);
}

#[test]
fn config_update_replaces_only_present_fields() {
    let mut pool = initialize_pool(1, 2, 3, 100, 24, 2000, 0);
    let r = update_pool_config(&mut pool, 1, None, None, None, Some(false));
    assert_eq!(r, Ok(()));
    assert_eq!(pool.reward_rate_per_hour, 100);
    assert_eq!(pool.min_claim_interval_hours, 24);
    assert_eq!(pool.max_daily_reward, 2000);
    assert!(!pool.is_active);
    assert_eq!(pool.total_distributed, 0);
    assert_eq!(pool.participant_count, 0);
    assert_eq!(pool.created_at, 0);
}

#[test]
fn closing_the_gate_refuses_quotes() {
    let mut pool = initialize_pool(1, 2, 3, 100, 24, 2000, 0);
    let user = register_user(&mut pool, 9, 0).unwrap();
    update_pool_config(&mut pool, 1, None, None, None, Some(false)).unwrap();
    assert_eq!(
        calculate_rewards(&pool, &user, 24 * 3600),
        Err(ErrorCode::PoolNotActive)
    );
}

#[test]
fn config_update_replaces_every_present_field() {
    let mut pool = initialize_pool(1, 2, 3, 100, 24, 2000, 0);
    let r = update_pool_config(&mut pool, 1, Some(7), Some(8), Some(9), Some(false));
    assert_eq!(r, Ok(()));
    assert_eq!(pool.reward_rate_per_hour, 7);
    assert_eq!(pool.min_claim_interval_hours, 8);
    assert_eq!(pool.max_daily_reward, 9);
    assert!(!pool.is_active);
}

#[test]
fn config_update_by_stranger_is_unauthorized() {
    let mut pool = initialize_pool(1, 2, 3, 100, 24, 2000, 0);
    let before = pool;
    let r = update_pool_config(&mut pool, 42, Some(0), None, None, Some(false));
    assert_eq!(r, Err(ErrorCode::Unauthorized));
    assert_eq!(pool, before);
}

#[test]
fn emergency_withdraw_moves_funds_without_touching_accounting() {
    let mut pool = initialize_pool(1, 2, 3, 100, 24, 2000, 0);
    let user = register_user(&mut pool, 9, 0).unwrap();
    let pool_before = pool;
    let user_before = user;
    let mut port = LedgerPort { calls: Vec::new() };
    let r = emergency_withdraw(&pool, 1, 12345, 99, &mut port);
    assert_eq!(r, Ok(()));
    assert_eq!(port.calls, vec![(3, 99, 1, 12345)]);
    assert_eq!(pool, pool_before);
    assert_eq!(user, user_before);
}

#[test]
fn emergency_withdraw_by_stranger_is_unauthorized() {
    let pool = initialize_pool(1, 2, 3, 100, 24, 2000, 0);
    let mut port = LedgerPort { calls: Vec::new() };
    let r = emergency_withdraw(&pool, 2, 12345, 99, &mut port);
    assert_eq!(r, Err(ErrorCode::Unauthorized));
    assert!(port.calls.is_empty());
}

#[test]
fn emergency_withdraw_reports_refused_transfer() {
    let pool = initialize_pool(1, 2, 3, 100, 24, 2000, 0);
    let mut port = ClosedPort;
    let r = emergency_withdraw(&pool, 1, 12345, 99, &mut port);
    assert_eq!(r, Err(ErrorCode::TransferFailed));
}

#[test]
fn emergency_withdraw_ignores_activity_gate() {
    let mut pool = initialize_pool(1, 2, 3, 100, 24, 2000, 0);
    update_pool_config(&mut pool, 1, None, None, None, Some(false)).unwrap();
    let mut port = LedgerPort { calls: Vec::new() };
    assert_eq!(emergency_withdraw(&pool, 1, 5, 99, &mut port), Ok(()));
    assert_eq!(port.calls.len(), 1);
}
