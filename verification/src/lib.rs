//! Accounting and access-control core of a two-asset constant-product pool
//! whose assets may carry transfer hooks.

pub mod errors;
pub mod hook_gate;
pub mod identity;
pub mod liquidity;
pub mod math;
pub mod pool;
pub mod pricing;
pub mod transfer_hook;
