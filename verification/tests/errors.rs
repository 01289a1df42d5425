use token_amm::errors::AmmError;
use token_amm::transfer_hook::TransferHookError;

#[test]
fn pool_failures_carry_their_messages() {
    assert_eq!(AmmError::InvalidFeeRate.message(), "Invalid fee rate");
    assert_eq!(AmmError::InsufficientLiquidity.message(), "Insufficient liquidity");
    assert_eq!(AmmError::SlippageExceeded.message(), "Slippage tolerance exceeded");
    assert_eq!(AmmError::HookNotWhitelisted.message(), "Transfer hook not whitelisted");
    assert_eq!(AmmError::HookValidationFailed.message(), "Transfer hook validation failed");
    assert_eq!(AmmError::InvalidTokenMint.message(), "Invalid token mint");
    assert_eq!(AmmError::InsufficientBalance.message(), "Insufficient balance");
    assert_eq!(AmmError::InvalidCalculation.message(), "Invalid calculation");
    assert_eq!(AmmError::PoolAlreadyInitialized.message(), "Pool already initialized");
    assert_eq!(AmmError::Unauthorized.message(), "Unauthorized");
    assert_eq!(AmmError::UnsupportedExtension.message(), "Token-2022 extension not supported");
    assert_eq!(AmmError::HookExecutionFailed.message(), "Hook execution failed");
}

#[test]
fn hook_failures_carry_their_messages() {
    assert_eq!(TransferHookError::HookNotActive.message(), "Transfer hook is not active");
    assert_eq!(TransferHookError::NotWhitelisted.message(), "Destination address not whitelisted");
    assert_eq!(TransferHookError::AmountExceedsLimit.message(), "Transfer amount exceeds limit");
    assert_eq!(TransferHookError::RateLimitExceeded.message(), "Rate limit exceeded");
    assert_eq!(TransferHookError::ComplianceViolation.message(), "Compliance violation");
    assert_eq!(TransferHookError::Unauthorized.message(), "Unauthorized");
}

#[test]
fn failures_compare_by_kind() {
    assert_eq!(AmmError::Unauthorized, AmmError::Unauthorized);
    assert_ne!(AmmError::InvalidCalculation, AmmError::InvalidFeeRate);
    assert_ne!(TransferHookError::Unauthorized, TransferHookError::HookNotActive);
}
