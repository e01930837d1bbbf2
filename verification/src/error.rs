//! Errors surfaced by the pool's operations.

use vstd::prelude::*;

verus! {

/// Every way an operation of the pool can fail. An operation that returns an
/// error leaves the pool exactly as it found it.
#[derive(Clone, Copy, Debug, PartialEq, Eq, Structural)]
pub enum ErrorCode {
    /// The operation is not allowed in the pool's current state, for example
    /// a swap submitted before the pool's opening time.
    NotApproved,
    /// The owner of an input account is not the expected authority.
    InvalidOwner,
    /// A reserve is zero where a trade requires it to be positive.
    EmptySupply,
    /// Malformed pair ordering, a structurally invalid request, or a result
    /// that would overflow the pool's 64-bit accounting.
    InvalidInput,
    /// The provided liquidity-share mint is not the pool's.
    IncorrectLpMint,
    /// A computed amount violates the caller's slippage bound.
    ExceededSlippage,
    /// A computed trade or withdrawal amount rounds to zero.
    ZeroTradingTokens,
    /// The token mint carries an unsupported extension.
    NotSupportMint,
    /// A vault account does not belong to the pool.
    InvalidVault,
    /// The initial liquidity mint would not exceed the permanently locked floor.
    InitLpAmountTooLess,
    /// The bonding-curve bootstrap produced no viable sell result.
    SellResultNone,
    /// The bonding-curve bootstrap produced no viable buy result.
    BuyResultNone,
}

} // verus!
