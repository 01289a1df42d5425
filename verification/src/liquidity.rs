//! Share accounting: how many pool shares a deposit mints, and what a
//! redemption of shares pays out. Every division rounds down, on both sides,
//! so that a deposit followed by a redemption cannot gain from rounding.

use crate::errors::AmmError;
use crate::math::{
    floor_sqrt,
    integer_sqrt,
    lemma_floor_sqrt_monotonic,
    lemma_floor_sqrt_of_square,
    lemma_product_fits,
    lemma_quotient_bounded,
    mul_div,
    mul_div_floor,
};
use vstd::prelude::*;

verus! {

/// Shares withheld from the first deposit. They are never minted, which sets a
/// floor on what it costs to move the share price.
pub const MINIMUM_LIQUIDITY: u64 = 1000;

/// The smaller of two numbers.
pub open spec fn smaller(x: nat, y: nat) -> nat {
    if x <= y {
        x
    } else {
        y
    }
}

/// Shares of a first deposit before the minimum is withheld: the geometric
/// mean of the two amounts, rounded down.
pub open spec fn first_deposit_shares(amount_a: nat, amount_b: nat) -> nat {
    floor_sqrt(amount_a * amount_b)
}

/// Shares of a deposit into a pool with shares outstanding: each side supports
/// `floor(amount * share_supply / reserve)`, and the stricter side decides.
pub open spec fn proportional_shares(
    amount_a: nat,
    amount_b: nat,
    reserve_a: nat,
    reserve_b: nat,
    share_supply: nat,
) -> nat
    recommends
        reserve_a > 0,
        reserve_b > 0,
{
    smaller(mul_div(amount_a, share_supply, reserve_a), mul_div(amount_b, share_supply, reserve_b))
}

/// What a deposit mints, or why it mints nothing.
pub open spec fn shares_minted(
    amount_a: u64,
    amount_b: u64,
    reserve_a: u64,
    reserve_b: u64,
    share_supply: u64,
) -> Result<u64, AmmError> {
    if amount_a == 0 || amount_b == 0 {
        Err(AmmError::InvalidCalculation)
    } else if share_supply == 0 {
        let shares = first_deposit_shares(amount_a as nat, amount_b as nat);
        if shares <= 1000 {
            Err(AmmError::InvalidCalculation)
        } else {
            Ok((shares - 1000) as u64)
        }
    } else if reserve_a == 0 || reserve_b == 0 {
        Err(AmmError::InvalidCalculation)
    } else {
        let shares = proportional_shares(
            amount_a as nat,
            amount_b as nat,
            reserve_a as nat,
            reserve_b as nat,
            share_supply as nat,
        );
        if shares > u64::MAX {
            Err(AmmError::InvalidCalculation)
        } else {
            Ok(shares as u64)
        }
    }
}

/// The part of `reserve` that `lp_amount` out of `share_supply` shares stands
/// for: `floor(reserve * lp_amount / share_supply)`.
pub open spec fn redeemed_amount(reserve: nat, lp_amount: nat, share_supply: nat) -> nat
    recommends
        share_supply > 0,
{
    mul_div(reserve, lp_amount, share_supply)
}

/// What a redemption pays out on each side, or why it pays nothing.
pub open spec fn redemption(lp_amount: u64, reserve_a: u64, reserve_b: u64, share_supply: u64) -> Result<
    (u64, u64),
    AmmError,
> {
    if lp_amount == 0 {
        Err(AmmError::InvalidCalculation)
    } else if lp_amount > share_supply {
        Err(AmmError::InsufficientBalance)
    } else {
        Ok(
            (
                redeemed_amount(reserve_a as nat, lp_amount as nat, share_supply as nat) as u64,
                redeemed_amount(reserve_b as nat, lp_amount as nat, share_supply as nat) as u64,
            ),
        )
    }
}

/// The geometric mean of two 64-bit amounts fits in 64 bits.
pub proof fn lemma_first_deposit_shares_fit(amount_a: u64, amount_b: u64)
    ensures
        first_deposit_shares(amount_a as nat, amount_b as nat) <= u64::MAX,
{
    let top: nat = 0xffff_ffff_ffff_ffff;
    lemma_product_fits(amount_a, amount_b);
    lemma_floor_sqrt_monotonic((amount_a as nat) * (amount_b as nat), top * top);
    lemma_floor_sqrt_of_square(top);
}

/// A redemption never pays out more than the reserve holds, and leaves
/// something of a non-empty reserve unless every share is redeemed.
pub proof fn lemma_redeemed_amount_bounded(reserve: nat, lp_amount: nat, share_supply: nat)
    requires
        0 < share_supply,
        lp_amount <= share_supply,
    ensures
        redeemed_amount(reserve, lp_amount, share_supply) <= reserve,
        lp_amount < share_supply && reserve > 0 ==> redeemed_amount(
            reserve,
            lp_amount,
            share_supply,
        ) < reserve,
{
    assert(reserve * lp_amount <= reserve * share_supply) by (nonlinear_arith)
        requires
            lp_amount <= share_supply,
    ;
    lemma_quotient_bounded(reserve * lp_amount, share_supply, reserve);
    if lp_amount < share_supply && reserve > 0 {
        assert(reserve * lp_amount / share_supply < reserve) by (nonlinear_arith)
            requires
                lp_amount < share_supply,
                reserve > 0,
        ;
    }
}

/// Shares minted by a proportional deposit, redeemed against the reserves and
/// supply they were priced at, stand for no more than the deposit on either
/// side.
pub proof fn lemma_minted_shares_worth_at_most_deposit(
    amount_a: nat,
    amount_b: nat,
    reserve_a: nat,
    reserve_b: nat,
    share_supply: nat,
)
    requires
        reserve_a > 0,
        reserve_b > 0,
        share_supply > 0,
    ensures
        redeemed_amount(
            reserve_a,
            proportional_shares(amount_a, amount_b, reserve_a, reserve_b, share_supply),
            share_supply,
        ) <= amount_a,
        redeemed_amount(
            reserve_b,
            proportional_shares(amount_a, amount_b, reserve_a, reserve_b, share_supply),
            share_supply,
        ) <= amount_b,
{
    let minted: nat = proportional_shares(amount_a, amount_b, reserve_a, reserve_b, share_supply);
    lemma_share_of_side_bounded(amount_a, reserve_a, share_supply, minted);
    lemma_share_of_side_bounded(amount_b, reserve_b, share_supply, minted);
    lemma_quotient_bounded(reserve_a * minted, share_supply, amount_a);
    lemma_quotient_bounded(reserve_b * minted, share_supply, amount_b);
}

/// Shares minted by a deposit, redeemed against the very reserves and supply
/// the deposit was priced at, pay out no more than the deposit on either
/// side. The redemption is refused when nothing was minted, and when more was
/// minted than was outstanding, as after a first deposit.
pub proof fn lemma_redeem_at_deposit_price_bounded(
    amount_a: u64,
    amount_b: u64,
    reserve_a: u64,
    reserve_b: u64,
    share_supply: u64,
)
    requires
        shares_minted(amount_a, amount_b, reserve_a, reserve_b, share_supply) is Ok,
    ensures
        ({
            let minted = shares_minted(amount_a, amount_b, reserve_a, reserve_b, share_supply)->Ok_0;
            match redemption(minted, reserve_a, reserve_b, share_supply) {
                Ok((back_a, back_b)) => back_a <= amount_a && back_b <= amount_b,
                Err(_) => minted == 0 || minted > share_supply,
            }
        }),
{
    let minted: u64 = shares_minted(amount_a, amount_b, reserve_a, reserve_b, share_supply)->Ok_0;
    if 0 < minted <= share_supply {
        lemma_minted_shares_worth_at_most_deposit(
            amount_a as nat,
            amount_b as nat,
            reserve_a as nat,
            reserve_b as nat,
            share_supply as nat,
        );
    }
}

/// Shares within what one side of a deposit supports are worth, at the
/// reserve and supply they were priced at, no more than that side.
proof fn lemma_share_of_side_bounded(amount: nat, reserve: nat, share_supply: nat, minted: nat)
    requires
        reserve > 0,
        minted <= mul_div(amount, share_supply, reserve),
    ensures
        reserve * minted <= amount * share_supply,
{
    assert(reserve * minted <= amount * share_supply) by (nonlinear_arith)
        requires
            reserve > 0,
            minted <= (amount * share_supply) / reserve,
    ;
}

/// A deposit followed at once by the redemption of the shares it minted pays
/// back no more than was deposited, on either side.
///
/// The redemption is made against the pool as the deposit left it: reserves
/// and supply grown by the deposit. A first deposit is taken to go into empty
/// vaults. When the deposit minted no shares there is nothing to redeem, and
/// the redemption is refused.
pub proof fn lemma_deposit_then_redeem_bounded(
    amount_a: u64,
    amount_b: u64,
    reserve_a: u64,
    reserve_b: u64,
    share_supply: u64,
)
    requires
        shares_minted(amount_a, amount_b, reserve_a, reserve_b, share_supply) is Ok,
        share_supply == 0 ==> reserve_a == 0 && reserve_b == 0,
        reserve_a + amount_a <= u64::MAX,
        reserve_b + amount_b <= u64::MAX,
        share_supply + shares_minted(
            amount_a,
            amount_b,
            reserve_a,
            reserve_b,
            share_supply,
        )->Ok_0 <= u64::MAX,
    ensures
        ({
            let minted = shares_minted(amount_a, amount_b, reserve_a, reserve_b, share_supply)->Ok_0;
            match redemption(
                minted,
                (reserve_a + amount_a) as u64,
                (reserve_b + amount_b) as u64,
                (share_supply + minted) as u64,
            ) {
                Ok((back_a, back_b)) => back_a <= amount_a && back_b <= amount_b,
                Err(_) => minted == 0,
            }
        }),
{
    let minted: u64 = shares_minted(amount_a, amount_b, reserve_a, reserve_b, share_supply)->Ok_0;
    if minted > 0 {
        if share_supply == 0 {
            assert((amount_a as nat) * (minted as nat) / (minted as nat) == amount_a)
                by (nonlinear_arith)
                requires
                    minted > 0,
            ;
            assert((amount_b as nat) * (minted as nat) / (minted as nat) == amount_b)
                by (nonlinear_arith)
                requires
                    minted > 0,
            ;
        } else {
            lemma_share_of_side_bounded(
                amount_a as nat,
                reserve_a as nat,
                share_supply as nat,
                minted as nat,
            );
            lemma_share_of_side_bounded(
                amount_b as nat,
                reserve_b as nat,
                share_supply as nat,
                minted as nat,
            );
            lemma_round_trip_side(
                amount_a as nat,
                reserve_a as nat,
                share_supply as nat,
                minted as nat,
            );
            lemma_round_trip_side(
                amount_b as nat,
                reserve_b as nat,
                share_supply as nat,
                minted as nat,
            );
        }
    }
}

/// One side of the round trip: shares worth at most the deposit before it
/// are worth at most the deposit after it.
proof fn lemma_round_trip_side(amount: nat, reserve: nat, share_supply: nat, minted: nat)
    requires
        reserve * minted <= amount * share_supply,
        share_supply + minted > 0,
    ensures
        redeemed_amount(reserve + amount, minted, share_supply + minted) <= amount,
{
    assert((reserve + amount) * minted <= amount * (share_supply + minted)) by (nonlinear_arith)
        requires
            reserve * minted <= amount * share_supply,
    ;
    lemma_quotient_bounded((reserve + amount) * minted, share_supply + minted, amount);
}

/// Pool shares to mint for a deposit of `amount_a` and `amount_b`.
///
/// With no shares outstanding the deposit is the first one: it mints the
/// geometric mean of the two amounts, rounded down, less the 1000 shares that
/// are withheld for good; a mean of 1000 or less is refused. Otherwise each
/// side supports `floor(amount * total_supply / reserve)` shares and the
/// smaller of the two is minted. A deposit with a zero amount, against an
/// empty reserve, or whose shares do not fit in 64 bits is refused.
pub fn calculate_lp_tokens(
    amount_a: u64,
    amount_b: u64,
    reserve_a: u64,
    reserve_b: u64,
    total_supply: u64,
) -> (result: Result<u64, AmmError>)
    ensures
        result == shares_minted(amount_a, amount_b, reserve_a, reserve_b, total_supply),
        result matches Err(e) ==> e == AmmError::InvalidCalculation,
        result matches Ok(minted) ==> if total_supply == 0 {
            minted > 0 && minted == first_deposit_shares(amount_a as nat, amount_b as nat) - 1000
        } else {
            minted == proportional_shares(
                amount_a as nat,
                amount_b as nat,
                reserve_a as nat,
                reserve_b as nat,
                total_supply as nat,
            )
        },
        amount_a > 0 && amount_b > 0 && total_supply == 0 ==> (result is Ok <==> first_deposit_shares(
            amount_a as nat,
            amount_b as nat,
        ) > 1000),
        amount_a > 0 && amount_b > 0 && total_supply > 0 ==> (result is Ok <==> reserve_a > 0
            && reserve_b > 0 && proportional_shares(
            amount_a as nat,
            amount_b as nat,
            reserve_a as nat,
            reserve_b as nat,
            total_supply as nat,
        ) <= u64::MAX),
{
    if amount_a == 0 || amount_b == 0 {
        return Err(AmmError::InvalidCalculation);
    }
    if total_supply == 0 {
        proof {
            lemma_product_fits(amount_a, amount_b);
            lemma_first_deposit_shares_fit(amount_a, amount_b);
        }
        let product: u128 = (amount_a as u128) * (amount_b as u128);
        let lp_tokens: u128 = integer_sqrt(product);
        if lp_tokens <= MINIMUM_LIQUIDITY as u128 {
            return Err(AmmError::InvalidCalculation);
        }
        Ok((lp_tokens - MINIMUM_LIQUIDITY as u128) as u64)
    } else {
        if reserve_a == 0 || reserve_b == 0 {
            return Err(AmmError::InvalidCalculation);
        }
        let lp_from_a: u128 = mul_div_floor(amount_a, total_supply, reserve_a);
        let lp_from_b: u128 = mul_div_floor(amount_b, total_supply, reserve_b);
        let lp_tokens: u128 = if lp_from_a <= lp_from_b {
            lp_from_a
        } else {
            lp_from_b
        };
        if lp_tokens > u64::MAX as u128 {
            return Err(AmmError::InvalidCalculation);
        }
        Ok(lp_tokens as u64)
    }
}

/// What redeeming `lp_amount` shares pays out of each reserve:
/// `floor(reserve * lp_amount / share_supply)` on either side.
///
/// Redeeming nothing is refused, and so is redeeming more shares than are
/// outstanding.
pub fn redeem_shares(lp_amount: u64, reserve_a: u64, reserve_b: u64, share_supply: u64) -> (result:
    Result<(u64, u64), AmmError>)
    ensures
        result == redemption(lp_amount, reserve_a, reserve_b, share_supply),
        result is Ok <==> 0 < lp_amount <= share_supply,
        lp_amount > share_supply ==> result == Err::<(u64, u64), AmmError>(
            AmmError::InsufficientBalance,
        ),
        lp_amount == 0 ==> result == Err::<(u64, u64), AmmError>(AmmError::InvalidCalculation),
        result matches Ok((amount_a, amount_b)) ==> {
            &&& amount_a == redeemed_amount(reserve_a as nat, lp_amount as nat, share_supply as nat)
            &&& amount_b == redeemed_amount(reserve_b as nat, lp_amount as nat, share_supply as nat)
            &&& amount_a <= reserve_a
            &&& amount_b <= reserve_b
        },
{
    if lp_amount == 0 {
        return Err(AmmError::InvalidCalculation);
    }
    if lp_amount > share_supply {
        return Err(AmmError::InsufficientBalance);
    }
    proof {
        lemma_redeemed_amount_bounded(reserve_a as nat, lp_amount as nat, share_supply as nat);
        lemma_redeemed_amount_bounded(reserve_b as nat, lp_amount as nat, share_supply as nat);
    }
    let amount_a: u128 = mul_div_floor(reserve_a, lp_amount, share_supply);
    let amount_b: u128 = mul_div_floor(reserve_b, lp_amount, share_supply);
    Ok((amount_a as u64, amount_b as u64))
}

} // verus!
