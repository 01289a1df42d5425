//! The pool record and the operations on it. Each operation decides from the
//! record and the vault balances, read just before the call, what is to be
//! moved; moving it is left to the caller. A refused operation leaves the
//! record as it was.

use crate::errors::AmmError;
use crate::hook_gate::{authorize_transfer, transfer_allowed};
use crate::identity::Identity;
use crate::liquidity::{
    calculate_lp_tokens,
    lemma_redeemed_amount_bounded,
    redeem_shares,
    redemption,
    shares_minted,
};
use crate::pricing::{calculate_output_amount, quote};
use vstd::prelude::*;

verus! {

/// The highest fee a pool can charge, in basis points.
pub const MAX_FEE_RATE: u64 = 10000;

/// The most authorizers a pool can trust.
pub const MAX_WHITELIST_LEN: usize = 10;

/// The record of one pool, for one ordered pair of assets.
///
/// The reserves are not part of it: they are the balances of the two vaults,
/// handed to each operation.
#[derive(Clone, Debug)]
pub struct Pool {
    /// Who may change the configuration.
    pub authority: Identity,
    /// The first asset, the one that may carry a transfer hook.
    pub token_a_mint: Identity,
    /// The second asset.
    pub token_b_mint: Identity,
    /// Where the pool keeps the first asset.
    pub token_a_vault: Identity,
    /// Where the pool keeps the second asset.
    pub token_b_vault: Identity,
    /// The asset that stands for a share of the pool.
    pub lp_token_mint: Identity,
    /// Fee on the input of a swap, in basis points.
    pub fee_rate: u64,
    /// Shares outstanding.
    pub lp_token_supply: u64,
    /// Authorizers trusted to vouch for a hook-bearing transfer.
    pub hook_whitelist: Vec<Identity>,
    /// Swaps and liquidity operations are refused while this is false.
    pub is_active: bool,
}

impl Pool {
    /// The fee is at most 10000 basis points and the whitelist has at most
    /// ten entries.
    pub open spec fn well_formed(&self) -> bool {
        &&& self.fee_rate <= 10000
        &&& self.hook_whitelist@.len() <= 10
    }

    /// Whether the record is well formed.
    pub fn is_well_formed(&self) -> (ok: bool)
        ensures
            ok == self.well_formed(),
    {
        self.fee_rate <= MAX_FEE_RATE && self.hook_whitelist.len() <= MAX_WHITELIST_LEN
    }
}

/// Why a pool cannot be created, if it cannot.
pub open spec fn creation_refusal(
    already_initialized: bool,
    fee_rate: u64,
    hook_whitelist: Seq<Identity>,
) -> Option<AmmError> {
    if already_initialized {
        Some(AmmError::PoolAlreadyInitialized)
    } else if fee_rate > 10000 {
        Some(AmmError::InvalidFeeRate)
    } else if hook_whitelist.len() > 10 {
        Some(AmmError::InvalidCalculation)
    } else {
        None
    }
}

/// Creates the record of a new pool: active, with no shares outstanding.
///
/// `already_initialized` says whether a record exists for the asset pair; a
/// second one is refused. So is a fee above 10000 basis points, and a
/// whitelist of more than ten entries.
pub fn initialize_pool(
    already_initialized: bool,
    authority: Identity,
    token_a_mint: Identity,
    token_b_mint: Identity,
    token_a_vault: Identity,
    token_b_vault: Identity,
    lp_token_mint: Identity,
    fee_rate: u64,
    hook_whitelist: Vec<Identity>,
) -> (result: Result<Pool, AmmError>)
    ensures
        match result {
            Ok(pool) => {
                &&& creation_refusal(already_initialized, fee_rate, hook_whitelist@) is None
                &&& pool == (Pool {
                    authority,
                    token_a_mint,
                    token_b_mint,
                    token_a_vault,
                    token_b_vault,
                    lp_token_mint,
                    fee_rate,
                    lp_token_supply: 0,
                    hook_whitelist,
                    is_active: true,
                })
                &&& pool.well_formed()
            },
            Err(e) => creation_refusal(already_initialized, fee_rate, hook_whitelist@) == Some(e),
        },
{
    if already_initialized {
        return Err(AmmError::PoolAlreadyInitialized);
    }
    if fee_rate > MAX_FEE_RATE {
        return Err(AmmError::InvalidFeeRate);
    }
    if hook_whitelist.len() > MAX_WHITELIST_LEN {
        return Err(AmmError::InvalidCalculation);
    }
    Ok(
        Pool {
            authority,
            token_a_mint,
            token_b_mint,
            token_a_vault,
            token_b_vault,
            lp_token_mint,
            fee_rate,
            lp_token_supply: 0,
            hook_whitelist,
            is_active: true,
        },
    )
}

/// Why a change of the whitelist is refused, if it is.
pub open spec fn whitelist_refusal(pool: Pool, caller: Identity, new_whitelist: Seq<Identity>) -> Option<
    AmmError,
> {
    if caller != pool.authority {
        Some(AmmError::Unauthorized)
    } else if new_whitelist.len() > 10 {
        Some(AmmError::InvalidCalculation)
    } else {
        None
    }
}

/// Replaces the whitelist as a whole.
///
/// Only the pool authority may do so, and the new list may hold at most ten
/// entries.
pub fn update_hook_whitelist(pool: &mut Pool, caller: &Identity, new_whitelist: Vec<Identity>) -> (result:
    Result<(), AmmError>)
    ensures
        match result {
            Ok(_) => {
                &&& whitelist_refusal(*old(pool), *caller, new_whitelist@) is None
                &&& *final(pool) == (Pool { hook_whitelist: new_whitelist, ..*old(pool) })
            },
            Err(e) => {
                &&& whitelist_refusal(*old(pool), *caller, new_whitelist@) == Some(e)
                &&& *final(pool) == *old(pool)
            },
        },
        old(pool).well_formed() ==> final(pool).well_formed(),
{
    if *caller != pool.authority {
        return Err(AmmError::Unauthorized);
    }
    if new_whitelist.len() > MAX_WHITELIST_LEN {
        return Err(AmmError::InvalidCalculation);
    }
    pool.hook_whitelist = new_whitelist;
    Ok(())
}

/// Opens the pool to swaps and liquidity operations, or closes it.
///
/// Only the pool authority may do so.
pub fn set_active(pool: &mut Pool, caller: &Identity, active: bool) -> (result: Result<
    (),
    AmmError,
>)
    ensures
        *caller == old(pool).authority ==> result == Ok::<(), AmmError>(()) && *final(pool) == (Pool {
            is_active: active,
            ..*old(pool)
        }),
        *caller != old(pool).authority ==> result == Err::<(), AmmError>(AmmError::Unauthorized)
            && *final(pool) == *old(pool),
        old(pool).well_formed() ==> final(pool).well_formed(),
{
    if *caller != pool.authority {
        return Err(AmmError::Unauthorized);
    }
    pool.is_active = active;
    Ok(())
}

/// What a deposit into `pool` mints, or why it is refused.
pub open spec fn deposit_outcome(
    pool: Pool,
    token_a_amount: u64,
    token_b_amount: u64,
    min_lp_tokens: u64,
    reserve_a: u64,
    reserve_b: u64,
) -> Result<u64, AmmError> {
    if !pool.is_active {
        Err(AmmError::InvalidCalculation)
    } else {
        match shares_minted(
            token_a_amount,
            token_b_amount,
            reserve_a,
            reserve_b,
            pool.lp_token_supply,
        ) {
            Err(e) => Err(e),
            Ok(minted) => if minted < min_lp_tokens {
                Err(AmmError::SlippageExceeded)
            } else if pool.lp_token_supply + minted > u64::MAX {
                Err(AmmError::InvalidCalculation)
            } else {
                Ok(minted)
            },
        }
    }
}

/// Takes a deposit: decides how many shares it mints and adds them to the
/// supply.
///
/// `reserve_a` and `reserve_b` are the vault balances before the deposit. On
/// success the caller moves the two amounts into the vaults and mints the
/// returned shares to the depositor. The deposit is refused when the pool is
/// inactive, when it mints fewer than `min_lp_tokens`, and when the supply
/// would no longer fit in 64 bits. A first deposit that is taken leaves shares
/// outstanding.
pub fn add_liquidity(
    pool: &mut Pool,
    token_a_amount: u64,
    token_b_amount: u64,
    min_lp_tokens: u64,
    reserve_a: u64,
    reserve_b: u64,
) -> (result: Result<u64, AmmError>)
    ensures
        result == deposit_outcome(
            *old(pool),
            token_a_amount,
            token_b_amount,
            min_lp_tokens,
            reserve_a,
            reserve_b,
        ),
        match result {
            Ok(minted) => {
                &&& token_a_amount > 0 && token_b_amount > 0
                &&& minted >= min_lp_tokens
                &&& old(pool).lp_token_supply + minted <= u64::MAX
                &&& *final(pool) == (Pool {
                    lp_token_supply: (old(pool).lp_token_supply + minted) as u64,
                    ..*old(pool)
                })
                &&& old(pool).lp_token_supply == 0 ==> final(pool).lp_token_supply > 0
            },
            Err(_) => *final(pool) == *old(pool),
        },
        old(pool).well_formed() ==> final(pool).well_formed(),
{
    if !pool.is_active {
        return Err(AmmError::InvalidCalculation);
    }
    let lp_tokens: u64 = match calculate_lp_tokens(
        token_a_amount,
        token_b_amount,
        reserve_a,
        reserve_b,
        pool.lp_token_supply,
    ) {
        Ok(minted) => minted,
        Err(e) => {
            return Err(e);
        },
    };
    if lp_tokens < min_lp_tokens {
        return Err(AmmError::SlippageExceeded);
    }
    match pool.lp_token_supply.checked_add(lp_tokens) {
        Some(supply) => {
            pool.lp_token_supply = supply;
            Ok(lp_tokens)
        },
        None => Err(AmmError::InvalidCalculation),
    }
}

/// What a withdrawal from `pool` pays out, or why it is refused.
pub open spec fn withdrawal_outcome(
    pool: Pool,
    lp_token_amount: u64,
    min_token_a: u64,
    min_token_b: u64,
    reserve_a: u64,
    reserve_b: u64,
) -> Result<(u64, u64), AmmError> {
    if !pool.is_active {
        Err(AmmError::InvalidCalculation)
    } else {
        match redemption(lp_token_amount, reserve_a, reserve_b, pool.lp_token_supply) {
            Err(e) => Err(e),
            Ok((amount_a, amount_b)) => if amount_a < min_token_a || amount_b < min_token_b {
                Err(AmmError::SlippageExceeded)
            } else {
                Ok((amount_a, amount_b))
            },
        }
    }
}

/// Takes a withdrawal: decides what the shares pay out and takes them off
/// the supply.
///
/// `reserve_a` and `reserve_b` are the vault balances before the withdrawal.
/// On success the caller burns the shares and moves the two returned amounts
/// out of the vaults. The withdrawal is refused when the pool is inactive and
/// when either amount is below its floor. While shares remain outstanding, a
/// vault that held something still holds something afterwards.
pub fn remove_liquidity(
    pool: &mut Pool,
    lp_token_amount: u64,
    min_token_a: u64,
    min_token_b: u64,
    reserve_a: u64,
    reserve_b: u64,
) -> (result: Result<(u64, u64), AmmError>)
    ensures
        result == withdrawal_outcome(
            *old(pool),
            lp_token_amount,
            min_token_a,
            min_token_b,
            reserve_a,
            reserve_b,
        ),
        match result {
            Ok((amount_a, amount_b)) => {
                &&& 0 < lp_token_amount <= old(pool).lp_token_supply
                &&& min_token_a <= amount_a <= reserve_a
                &&& min_token_b <= amount_b <= reserve_b
                &&& *final(pool) == (Pool {
                    lp_token_supply: (old(pool).lp_token_supply - lp_token_amount) as u64,
                    ..*old(pool)
                })
                &&& final(pool).lp_token_supply > 0 && reserve_a > 0 ==> amount_a < reserve_a
                &&& final(pool).lp_token_supply > 0 && reserve_b > 0 ==> amount_b < reserve_b
            },
            Err(_) => *final(pool) == *old(pool),
        },
        old(pool).well_formed() ==> final(pool).well_formed(),
{
    if !pool.is_active {
        return Err(AmmError::InvalidCalculation);
    }
    let (token_a_amount, token_b_amount) = match redeem_shares(
        lp_token_amount,
        reserve_a,
        reserve_b,
        pool.lp_token_supply,
    ) {
        Ok(amounts) => amounts,
        Err(e) => {
            return Err(e);
        },
    };
    if token_a_amount < min_token_a {
        return Err(AmmError::SlippageExceeded);
    }
    if token_b_amount < min_token_b {
        return Err(AmmError::SlippageExceeded);
    }
    proof {
        lemma_redeemed_amount_bounded(
            reserve_a as nat,
            lp_token_amount as nat,
            pool.lp_token_supply as nat,
        );
        lemma_redeemed_amount_bounded(
            reserve_b as nat,
            lp_token_amount as nat,
            pool.lp_token_supply as nat,
        );
    }
    pool.lp_token_supply = pool.lp_token_supply - lp_token_amount;
    Ok((token_a_amount, token_b_amount))
}

/// What a swap against `pool` pays out, or why it is refused.
pub open spec fn swap_outcome(
    pool: Pool,
    amount_in: u64,
    minimum_amount_out: u64,
    a_to_b: bool,
    balance_a: u64,
    balance_b: u64,
    inbound_carries_hook: bool,
    presented_authorizers: Seq<Identity>,
) -> Result<u64, AmmError> {
    let reserve_in = if a_to_b {
        balance_a
    } else {
        balance_b
    };
    let reserve_out = if a_to_b {
        balance_b
    } else {
        balance_a
    };
    if !pool.is_active {
        Err(AmmError::InvalidCalculation)
    } else if balance_a == 0 || balance_b == 0 {
        Err(AmmError::InsufficientLiquidity)
    } else {
        match quote(amount_in, reserve_in, reserve_out, pool.fee_rate) {
            Err(e) => Err(e),
            Ok(amount_out) => if amount_out < minimum_amount_out {
                Err(AmmError::SlippageExceeded)
            } else if !transfer_allowed(
                inbound_carries_hook,
                pool.hook_whitelist@,
                presented_authorizers,
            ) {
                Err(AmmError::HookNotWhitelisted)
            } else {
                Ok(amount_out)
            },
        }
    }
}

/// Prices a swap and checks it against the hook whitelist.
///
/// `balance_a` and `balance_b` are the vault balances before the swap;
/// `a_to_b` says which side the input goes into. `inbound_carries_hook` says
/// whether the asset coming in carries a transfer hook: if so, one of
/// `presented_authorizers` has to be on the pool's whitelist. On success the
/// caller moves `amount_in` into the input vault and the returned amount out
/// of the output vault; the output vault is never emptied. The pool record
/// does not change.
pub fn swap(
    pool: &Pool,
    amount_in: u64,
    minimum_amount_out: u64,
    a_to_b: bool,
    balance_a: u64,
    balance_b: u64,
    inbound_carries_hook: bool,
    presented_authorizers: &[Identity],
) -> (result: Result<u64, AmmError>)
    ensures
        result == swap_outcome(
            *pool,
            amount_in,
            minimum_amount_out,
            a_to_b,
            balance_a,
            balance_b,
            inbound_carries_hook,
            presented_authorizers@,
        ),
        result matches Ok(amount_out) ==> {
            &&& pool.is_active
            &&& amount_in > 0
            &&& minimum_amount_out <= amount_out
            &&& 0 < amount_out < (if a_to_b {
                balance_b
            } else {
                balance_a
            })
            &&& transfer_allowed(inbound_carries_hook, pool.hook_whitelist@, presented_authorizers@)
        },
{
    if !pool.is_active {
        return Err(AmmError::InvalidCalculation);
    }
    if balance_a == 0 || balance_b == 0 {
        return Err(AmmError::InsufficientLiquidity);
    }
    let quoted: Result<u64, AmmError> = if a_to_b {
        calculate_output_amount(amount_in, balance_a, balance_b, pool.fee_rate)
    } else {
        calculate_output_amount(amount_in, balance_b, balance_a, pool.fee_rate)
    };
    let amount_out: u64 = match quoted {
        Ok(amount) => amount,
        Err(e) => {
            return Err(e);
        },
    };
    if amount_out < minimum_amount_out {
        return Err(AmmError::SlippageExceeded);
    }
    if !authorize_transfer(
        inbound_carries_hook,
        pool.hook_whitelist.as_slice(),
        presented_authorizers,
    ) {
        return Err(AmmError::HookNotWhitelisted);
    }
    Ok(amount_out)
}

} // verus!
