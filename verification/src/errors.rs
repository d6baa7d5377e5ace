use vstd::prelude::*;

verus! {

/// Failure kinds of the reward core. Every failure is terminal for the
/// current operation and leaves no observable state mutation behind.
#[derive(Clone, Copy, Debug, PartialEq, Eq, Structural)]
pub enum ErrorCode {
    /// The pool's activity gate is closed.
    PoolNotActive,
    /// The user's activity gate is closed.
    UserNotActive,
    /// Fewer whole hours have elapsed than the pool's minimum claim interval.
    ClaimTooSoon,
    /// The caller-supplied expected amount differs from the recomputed amount.
    AmountMismatch,
    /// The recomputed amount is zero.
    NoRewardsAvailable,
    /// A counter increment or the reward multiplication would overflow.
    ArithmeticOverflow,
    /// The caller is not the pool's administration authority.
    Unauthorized,
    /// The record store already holds a record under this key.
    DuplicateRegistration,
    /// The token-transfer collaborator reported failure; nothing was moved.
    TransferFailed,
}

/// Error reported by a token-transfer collaborator. A failed transfer moves
/// nothing (the collaborator is all-or-nothing by contract).
#[derive(Clone, Copy, Debug, PartialEq, Eq, Structural)]
pub struct TransferError;

} // verus!
