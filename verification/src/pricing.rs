//! Swap pricing: the fee is taken from the input first, then the
//! constant-product rule gives the output.

use crate::errors::AmmError;
use crate::math::{lemma_product_fits, lemma_quotient_ordered, mul_div_floor};
use vstd::prelude::*;

verus! {

/// One hundred percent, in basis points.
pub const BPS_DENOMINATOR: u64 = 10000;

/// What is left of `amount_in` once the fee of `fee_rate` basis points is taken:
/// `floor(amount_in * (10000 - fee_rate) / 10000)`.
pub open spec fn amount_after_fee(amount_in: nat, fee_rate: nat) -> nat
    recommends
        fee_rate <= 10000,
{
    amount_in * ((10000 - fee_rate) as nat) / 10000
}

/// The output that keeps `reserve_in * reserve_out` from shrinking when
/// `net_in` is added to the input side:
/// `floor(reserve_out * net_in / (reserve_in + net_in))`.
pub open spec fn constant_product_output(net_in: nat, reserve_in: nat, reserve_out: nat) -> nat
    recommends
        reserve_in + net_in > 0,
{
    reserve_out * net_in / (reserve_in + net_in)
}

/// The output of a swap of `amount_in` against the given reserves and fee.
pub open spec fn swap_output(amount_in: nat, reserve_in: nat, reserve_out: nat, fee_rate: nat) -> nat
    recommends
        reserve_in > 0,
        fee_rate <= 10000,
{
    constant_product_output(amount_after_fee(amount_in, fee_rate), reserve_in, reserve_out)
}

/// What a swap quote answers: the output, or the reason there is none.
pub open spec fn quote(amount_in: u64, reserve_in: u64, reserve_out: u64, fee_rate: u64) -> Result<
    u64,
    AmmError,
> {
    let out = swap_output(amount_in as nat, reserve_in as nat, reserve_out as nat, fee_rate as nat);
    if amount_in == 0 {
        Err(AmmError::InvalidCalculation)
    } else if reserve_in == 0 || reserve_out == 0 {
        Err(AmmError::InsufficientLiquidity)
    } else if fee_rate > 10000 {
        Err(AmmError::InvalidFeeRate)
    } else if out == 0 {
        Err(AmmError::InvalidCalculation)
    } else if out >= reserve_out {
        Err(AmmError::InsufficientLiquidity)
    } else {
        Ok(out as u64)
    }
}

/// Taking the fee never increases the amount.
pub proof fn lemma_amount_after_fee_bounded(amount_in: nat, fee_rate: nat)
    requires
        fee_rate <= 10000,
    ensures
        amount_after_fee(amount_in, fee_rate) <= amount_in,
{
    let keep: nat = (10000 - fee_rate) as nat;
    assert(amount_in * keep / 10000 <= amount_in) by (nonlinear_arith)
        requires
            keep <= 10000,
    ;
}

/// A swap never pays out the whole output reserve: for a pool with both
/// reserves positive and a fee of at most 10000 basis points the output is
/// strictly below `reserve_out`.
pub proof fn lemma_swap_output_below_reserve(
    amount_in: nat,
    reserve_in: nat,
    reserve_out: nat,
    fee_rate: nat,
)
    requires
        reserve_in > 0,
        reserve_out > 0,
        fee_rate <= 10000,
    ensures
        swap_output(amount_in, reserve_in, reserve_out, fee_rate) < reserve_out,
{
    let net: nat = amount_after_fee(amount_in, fee_rate);
    assert(reserve_out * net / (reserve_in + net) < reserve_out) by (nonlinear_arith)
        requires
            reserve_in > 0,
            reserve_out > 0,
    ;
}

/// For fixed reserves and fee, a larger input never buys less.
pub proof fn lemma_swap_output_monotonic(
    amount_low: nat,
    amount_high: nat,
    reserve_in: nat,
    reserve_out: nat,
    fee_rate: nat,
)
    requires
        amount_low <= amount_high,
        reserve_in > 0,
        fee_rate <= 10000,
    ensures
        swap_output(amount_low, reserve_in, reserve_out, fee_rate) <= swap_output(
            amount_high,
            reserve_in,
            reserve_out,
            fee_rate,
        ),
{
    let keep: nat = (10000 - fee_rate) as nat;
    let net_low: nat = amount_after_fee(amount_low, fee_rate);
    let net_high: nat = amount_after_fee(amount_high, fee_rate);
    assert((amount_low * keep) * 10000 <= (amount_high * keep) * 10000) by (nonlinear_arith)
        requires
            amount_low <= amount_high,
    ;
    lemma_quotient_ordered(amount_low * keep, 10000, amount_high * keep, 10000);
    assert((reserve_out * net_low) * (reserve_in + net_high) <= (reserve_out * net_high) * (
    reserve_in + net_low)) by (nonlinear_arith)
        requires
            net_low <= net_high,
    ;
    lemma_quotient_ordered(
        reserve_out * net_low,
        reserve_in + net_low,
        reserve_out * net_high,
        reserve_in + net_high,
    );
}

/// Moving `amount_in` into the input reserve and the swap output out of the
/// output reserve never decreases the product of the reserves.
pub proof fn lemma_swap_keeps_product(
    amount_in: nat,
    reserve_in: nat,
    reserve_out: nat,
    fee_rate: nat,
)
    requires
        reserve_in > 0,
        reserve_out > 0,
        fee_rate <= 10000,
    ensures
        swap_output(amount_in, reserve_in, reserve_out, fee_rate) < reserve_out,
        (reserve_in + amount_in) * (reserve_out - swap_output(
            amount_in,
            reserve_in,
            reserve_out,
            fee_rate,
        )) >= reserve_in * reserve_out,
{
    lemma_swap_output_below_reserve(amount_in, reserve_in, reserve_out, fee_rate);
    lemma_amount_after_fee_bounded(amount_in, fee_rate);
    let net: nat = amount_after_fee(amount_in, fee_rate);
    let out: nat = swap_output(amount_in, reserve_in, reserve_out, fee_rate);
    assert(out * (reserve_in + net) <= reserve_out * net) by (nonlinear_arith)
        requires
            out == reserve_out * net / (reserve_in + net),
            reserve_in > 0,
    ;
    assert((reserve_in + net) * (reserve_out - out) >= reserve_in * reserve_out)
        by (nonlinear_arith)
        requires
            out * (reserve_in + net) <= reserve_out * net,
    ;
    assert((reserve_in + amount_in) * (reserve_out - out) >= (reserve_in + net) * (reserve_out
        - out)) by (nonlinear_arith)
        requires
            net <= amount_in,
            out < reserve_out,
    ;
}

/// A swap that is quoted leaves the product of the reserves at least as
/// large as it was, once the input is added to its reserve and the quoted
/// output is taken from the other.
pub proof fn lemma_quote_keeps_product(
    amount_in: u64,
    reserve_in: u64,
    reserve_out: u64,
    fee_rate: u64,
)
    requires
        quote(amount_in, reserve_in, reserve_out, fee_rate) is Ok,
    ensures
        quote(amount_in, reserve_in, reserve_out, fee_rate)->Ok_0 < reserve_out,
        (reserve_in + amount_in) * (reserve_out - quote(
            amount_in,
            reserve_in,
            reserve_out,
            fee_rate,
        )->Ok_0) >= reserve_in * reserve_out,
{
    lemma_swap_keeps_product(
        amount_in as nat,
        reserve_in as nat,
        reserve_out as nat,
        fee_rate as nat,
    );
}

/// A quote that succeeds for one input succeeds for every larger input, with
/// an output at least as large.
pub proof fn lemma_quote_monotonic(
    amount_low: u64,
    amount_high: u64,
    reserve_in: u64,
    reserve_out: u64,
    fee_rate: u64,
)
    requires
        amount_low <= amount_high,
        quote(amount_low, reserve_in, reserve_out, fee_rate) is Ok,
    ensures
        quote(amount_high, reserve_in, reserve_out, fee_rate) is Ok,
        quote(amount_low, reserve_in, reserve_out, fee_rate)->Ok_0 <= quote(
            amount_high,
            reserve_in,
            reserve_out,
            fee_rate,
        )->Ok_0,
{
    lemma_swap_output_monotonic(
        amount_low as nat,
        amount_high as nat,
        reserve_in as nat,
        reserve_out as nat,
        fee_rate as nat,
    );
    lemma_swap_output_below_reserve(
        amount_high as nat,
        reserve_in as nat,
        reserve_out as nat,
        fee_rate as nat,
    );
}

/// The output of swapping `amount_in` into a pool with the given reserves, at
/// a fee of `fee_rate` basis points.
///
/// The fee comes off the input first; the rest is priced by the
/// constant-product rule. Both divisions round down. The swap is refused when
/// the input is zero, a reserve is empty, the fee is above 10000 basis points,
/// or the output would round down to nothing.
pub fn calculate_output_amount(
    amount_in: u64,
    reserve_in: u64,
    reserve_out: u64,
    fee_rate: u64,
) -> (result: Result<u64, AmmError>)
    ensures
        result == quote(amount_in, reserve_in, reserve_out, fee_rate),
        result is Ok <==> amount_in > 0 && reserve_in > 0 && reserve_out > 0 && fee_rate <= 10000
            && swap_output(amount_in as nat, reserve_in as nat, reserve_out as nat, fee_rate as nat)
            > 0,
        result matches Ok(amount_out) ==> 0 < amount_out < reserve_out && amount_out == swap_output(
            amount_in as nat,
            reserve_in as nat,
            reserve_out as nat,
            fee_rate as nat,
        ),
        result matches Err(e) ==> e == AmmError::InvalidCalculation || e
            == AmmError::InsufficientLiquidity || e == AmmError::InvalidFeeRate,
{
    if amount_in == 0 {
        return Err(AmmError::InvalidCalculation);
    }
    if reserve_in == 0 || reserve_out == 0 {
        return Err(AmmError::InsufficientLiquidity);
    }
    if fee_rate > BPS_DENOMINATOR {
        return Err(AmmError::InvalidFeeRate);
    }
    let widened_net: u128 = mul_div_floor(amount_in, BPS_DENOMINATOR - fee_rate, BPS_DENOMINATOR);
    proof {
        lemma_amount_after_fee_bounded(amount_in as nat, fee_rate as nat);
    }
    let amount_in_with_fee: u64 = widened_net as u64;
    proof {
        lemma_product_fits(reserve_out, amount_in_with_fee);
        lemma_swap_output_below_reserve(
            amount_in as nat,
            reserve_in as nat,
            reserve_out as nat,
            fee_rate as nat,
        );
    }
    let numerator: u128 = (reserve_out as u128) * (amount_in_with_fee as u128);
    let denominator: u128 = (reserve_in as u128) + (amount_in_with_fee as u128);
    let amount_out: u128 = numerator / denominator;
    if amount_out == 0 {
        return Err(AmmError::InvalidCalculation);
    }
    if amount_out >= reserve_out as u128 {
        return Err(AmmError::InsufficientLiquidity);
    }
    Ok(amount_out as u64)
}

} // verus!
