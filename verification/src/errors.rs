//! Failure kinds reported by the pool engine.

use vstd::prelude::*;

verus! {

/// Why a pool operation was refused.
#[derive(Clone, Copy, Debug, PartialEq, Eq, Structural)]
pub enum AmmError {
    /// The fee rate lies outside `0..=10000` basis points.
    InvalidFeeRate,
    /// A reserve is empty, or the swap would drain the output reserve.
    InsufficientLiquidity,
    /// The computed amount is below the floor the caller asked for.
    SlippageExceeded,
    /// No trusted authorizer was presented for a hook-bearing transfer.
    HookNotWhitelisted,
    /// A transfer hook rejected the transfer.
    HookValidationFailed,
    /// The mint does not belong to the pool.
    InvalidTokenMint,
    /// More shares were offered for redemption than are outstanding.
    InsufficientBalance,
    /// An amount is zero, a result does not fit, or a list is too long.
    InvalidCalculation,
    /// A pool already exists for the asset pair.
    PoolAlreadyInitialized,
    /// The caller is not the pool authority.
    Unauthorized,
    /// The mint carries an extension the pool cannot handle.
    UnsupportedExtension,
    /// A transfer hook could not be run.
    HookExecutionFailed,
}

impl AmmError {
    /// The text of the message that goes with each failure.
    pub open spec fn message_text(self) -> Seq<char> {
        match self {
            AmmError::InvalidFeeRate => "Invalid fee rate"@,
            AmmError::InsufficientLiquidity => "Insufficient liquidity"@,
            AmmError::SlippageExceeded => "Slippage tolerance exceeded"@,
            AmmError::HookNotWhitelisted => "Transfer hook not whitelisted"@,
            AmmError::HookValidationFailed => "Transfer hook validation failed"@,
            AmmError::InvalidTokenMint => "Invalid token mint"@,
            AmmError::InsufficientBalance => "Insufficient balance"@,
            AmmError::InvalidCalculation => "Invalid calculation"@,
            AmmError::PoolAlreadyInitialized => "Pool already initialized"@,
            AmmError::Unauthorized => "Unauthorized"@,
            AmmError::UnsupportedExtension => "Token-2022 extension not supported"@,
            AmmError::HookExecutionFailed => "Hook execution failed"@,
        }
    }

    /// A short message for the failure.
    pub fn message(&self) -> (text: &'static str)
        ensures
            text@ == self.message_text(),
    {
        match self {
            AmmError::InvalidFeeRate => "Invalid fee rate",
            AmmError::InsufficientLiquidity => "Insufficient liquidity",
            AmmError::SlippageExceeded => "Slippage tolerance exceeded",
            AmmError::HookNotWhitelisted => "Transfer hook not whitelisted",
            AmmError::HookValidationFailed => "Transfer hook validation failed",
            AmmError::InvalidTokenMint => "Invalid token mint",
            AmmError::InsufficientBalance => "Insufficient balance",
            AmmError::InvalidCalculation => "Invalid calculation",
            AmmError::PoolAlreadyInitialized => "Pool already initialized",
            AmmError::Unauthorized => "Unauthorized",
            AmmError::UnsupportedExtension => "Token-2022 extension not supported",
            AmmError::HookExecutionFailed => "Hook execution failed",
        }
    }
}

} // verus!
