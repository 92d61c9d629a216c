use nebgov::liquidity::LiquidityError;

#[test]
fn test_liquidity_error_codes_snapshot() {
    // Snapshot: each LiquidityError variant maps to a stable u32.
    assert_eq!(LiquidityError::InvalidAmount.code(), 1);
    assert_eq!(LiquidityError::InsufficientShares.code(), 2);
    assert_eq!(LiquidityError::ImbalancedDeposit.code(), 3);
}
