//! Widened integer arithmetic shared by pricing and share accounting:
//! floor division of a 64x64-bit product, and the floor square root.

use vstd::prelude::*;

verus! {

/// `floor(a * b / d)` over the naturals.
pub open spec fn mul_div(a: nat, b: nat, d: nat) -> nat {
    (a * b) / d
}

/// `r` is the floor square root of `n`.
pub open spec fn is_floor_sqrt(n: nat, r: nat) -> bool {
    r * r <= n < (r + 1) * (r + 1)
}

/// The floor square root of `n`: the one `r` with `r * r <= n < (r + 1) * (r + 1)`.
pub open spec fn floor_sqrt(n: nat) -> nat {
    choose|r: nat| is_floor_sqrt(n, r)
}

/// Every natural number has a floor square root.
pub proof fn lemma_floor_sqrt_exists(n: nat)
    ensures
        is_floor_sqrt(n, floor_sqrt(n)),
    decreases n,
{
    if n == 0 {
        assert(0nat * 0nat == 0 && (0nat + 1) * (0nat + 1) == 1) by (nonlinear_arith);
        assert(is_floor_sqrt(0, 0));
    } else {
        let m: nat = (n - 1) as nat;
        lemma_floor_sqrt_exists(m);
        let r: nat = floor_sqrt(m);
        if (r + 1) * (r + 1) <= n {
            assert((r + 1) * (r + 1) < (r + 2) * (r + 2)) by (nonlinear_arith);
            assert(is_floor_sqrt(n, r + 1));
        } else {
            assert(is_floor_sqrt(n, r));
        }
    }
}

/// A number has only one floor square root.
pub proof fn lemma_floor_sqrt_unique(n: nat, r: nat)
    requires
        is_floor_sqrt(n, r),
    ensures
        floor_sqrt(n) == r,
{
    let s: nat = floor_sqrt(n);
    if s < r {
        assert((s + 1) * (s + 1) <= r * r) by (nonlinear_arith)
            requires
                s + 1 <= r,
        ;
    } else if r < s {
        assert((r + 1) * (r + 1) <= s * s) by (nonlinear_arith)
            requires
                r + 1 <= s,
        ;
    }
}

/// The floor square root never decreases as its argument grows.
pub proof fn lemma_floor_sqrt_monotonic(m: nat, n: nat)
    requires
        m <= n,
    ensures
        floor_sqrt(m) <= floor_sqrt(n),
{
    lemma_floor_sqrt_exists(m);
    lemma_floor_sqrt_exists(n);
    let a: nat = floor_sqrt(m);
    let b: nat = floor_sqrt(n);
    if b < a {
        assert((b + 1) * (b + 1) <= a * a) by (nonlinear_arith)
            requires
                b + 1 <= a,
        ;
    }
}

/// The square root of a perfect square is its base.
pub proof fn lemma_floor_sqrt_of_square(r: nat)
    ensures
        floor_sqrt(r * r) == r,
{
    assert(r * r < (r + 1) * (r + 1)) by (nonlinear_arith);
    lemma_floor_sqrt_unique(r * r, r);
}

/// The product of two 64-bit values fits in 128 bits.
pub proof fn lemma_product_fits(a: u64, b: u64)
    ensures
        (a as nat) * (b as nat) <= 0xffff_ffff_ffff_ffff * 0xffff_ffff_ffff_ffff,
        (a as nat) * (b as nat) < u128::MAX,
{
    assert((a as nat) * (b as nat) <= 0xffff_ffff_ffff_ffff * 0xffff_ffff_ffff_ffff)
        by (nonlinear_arith)
        requires
            a <= 0xffff_ffff_ffff_ffff,
            b <= 0xffff_ffff_ffff_ffff,
    ;
}

/// A quotient is at most `bound` when the dividend is at most `bound * d`.
pub proof fn lemma_quotient_bounded(x: nat, d: nat, bound: nat)
    requires
        d > 0,
        x <= bound * d,
    ensures
        x / d <= bound,
{
    assert(x / d <= bound) by (nonlinear_arith)
        requires
            d > 0,
            x <= bound * d,
    ;
}

/// The floor keeps the order of two fractions: `a1 / d1 <= a2 / d2` whenever
/// `a1 * d2 <= a2 * d1`.
pub proof fn lemma_quotient_ordered(a1: nat, d1: nat, a2: nat, d2: nat)
    requires
        d1 > 0,
        d2 > 0,
        a1 * d2 <= a2 * d1,
    ensures
        a1 / d1 <= a2 / d2,
{
    let q: nat = a1 / d1;
    assert(q * d1 <= a1) by (nonlinear_arith)
        requires
            q == a1 / d1,
            d1 > 0,
    ;
    assert(q * d2 <= a2) by (nonlinear_arith)
        requires
            q * d1 <= a1,
            a1 * d2 <= a2 * d1,
            d1 > 0,
            d2 > 0,
    ;
    assert(q <= a2 / d2) by (nonlinear_arith)
        requires
            q * d2 <= a2,
            d2 > 0,
    ;
}

/// `floor(a * b / d)`, computed in 128 bits so that the product cannot overflow.
pub fn mul_div_floor(a: u64, b: u64, d: u64) -> (q: u128)
    requires
        d > 0,
    ensures
        q == mul_div(a as nat, b as nat, d as nat),
{
    proof {
        lemma_product_fits(a, b);
    }
    let product: u128 = (a as u128) * (b as u128);
    product / (d as u128)
}

/// One step of Newton's iteration from a guess at or above the root stays at
/// or above the root.
proof fn lemma_newton_step_stays_above(n: nat, x: nat, y: nat)
    requires
        x > 0,
        y == (x + n / x) / 2,
    ensures
        n < (y + 1) * (y + 1),
{
    let t: nat = n / x + 1;
    assert(n < x * t) by (nonlinear_arith)
        requires
            x > 0,
            t == n / x + 1,
    ;
    assert(4 * (x * t) <= (x + t) * (x + t)) by (nonlinear_arith);
    assert((x + t) * (x + t) <= 4 * ((y + 1) * (y + 1))) by (nonlinear_arith)
        requires
            x + t <= 2 * (y + 1),
    ;
}

/// A Newton step that does not go below the guess shows the guess to be at
/// or below the root.
proof fn lemma_newton_fixpoint_is_below(n: nat, x: nat, y: nat)
    requires
        x > 0,
        y == (x + n / x) / 2,
        y >= x,
    ensures
        x * x <= n,
{
    assert(x * x <= n) by (nonlinear_arith)
        requires
            x > 0,
            n / x >= x,
    ;
}

/// Floor square root by Newton's iteration.
pub fn integer_sqrt(n: u128) -> (r: u128)
    ensures
        r as nat == floor_sqrt(n as nat),
{
    if n < 2 {
        proof {
            assert(0nat * 0nat == 0 && 1nat * 1nat == 1 && 2nat * 2nat == 4)
                by (nonlinear_arith);
            lemma_floor_sqrt_unique(n as nat, n as nat);
        }
        return n;
    }
    let mut x: u128 = n;
    let mut y: u128 = n / 2 + n % 2;
    proof {
        assert(n as nat / (n as nat) == 1) by (nonlinear_arith)
            requires
                n >= 2,
        ;
        assert((n as nat) < (n as nat + 1) * (n as nat + 1)) by (nonlinear_arith);
    }
    while y < x
        invariant
            n >= 2,
            0 < x <= n,
            (n as nat) < (x as nat + 1) * (x as nat + 1),
            y as nat == (x as nat + (n as nat) / (x as nat)) / 2,
        decreases x,
    {
        proof {
            lemma_newton_step_stays_above(n as nat, x as nat, y as nat);
            assert((n as nat) / (x as nat) >= 1) by (nonlinear_arith)
                requires
                    0 < x <= n,
            ;
        }
        x = y;
        let q: u128 = n / x;
        y = x / 2 + q / 2 + (x % 2 + q % 2) / 2;
    }
    proof {
        lemma_newton_fixpoint_is_below(n as nat, x as nat, y as nat);
        lemma_floor_sqrt_unique(n as nat, x as nat);
    }
    x
}

} // verus!
