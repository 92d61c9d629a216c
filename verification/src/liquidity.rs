use vstd::prelude::*;

verus! {

/// The error codes of the liquidity pool contract whose numbers are fixed:
/// a subset of its errors (it reports others too, such as a missing pool,
/// whose codes are not held here).
#[derive(Clone, Copy, Debug, PartialEq, Eq, Structural)]
pub enum LiquidityError {
    /// An amount or share count is zero or negative.
    InvalidAmount,
    /// A provider tries to remove more shares than it holds.
    InsufficientShares,
    /// A deposit's second amount is below the pool's reserve ratio.
    ImbalancedDeposit,
}

/// The stable contract error code of each liquidity error.
pub open spec fn liquidity_error_code(e: LiquidityError) -> u32 {
    match e {
        LiquidityError::InvalidAmount => 1,
        LiquidityError::InsufficientShares => 2,
        LiquidityError::ImbalancedDeposit => 3,
    }
}

impl LiquidityError {
    /// The numeric code under which the error is reported to callers.
    pub fn code(&self) -> (c: u32)
        ensures
            c == liquidity_error_code(*self),
    {
        match self {
            LiquidityError::InvalidAmount => 1,
            LiquidityError::InsufficientShares => 2,
            LiquidityError::ImbalancedDeposit => 3,
        }
    }
}

} // verus!
