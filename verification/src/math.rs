//! Fixed-width integer helpers shared by every pricing routine.

use vstd::prelude::*;

verus! {

/// One US dollar in the fund's value unit.
pub const ONE_USD: u64 = 1_000_000_000_000;

/// Denominator of a basis-point fraction.
pub const BPS_DIVIDER: u64 = 10000;

/// Denominator of a weight.
pub const WEIGHT_MULTIPLIER: u64 = 10000;

/// Largest `d` for which `10^d` fits in 64 bits.
pub const MAX_DECIMALS: u8 = 19;

/// `x` where it fits in 64 bits, else zero. Every quantity of this crate
/// that outgrows 64 bits is reported as zero.
pub open spec fn fit_u64(x: int) -> int {
    if 0 <= x <= u64::MAX {
        x
    } else {
        0
    }
}

/// `floor(a * b / c)` where that is defined and fits in 64 bits, else zero.
pub open spec fn mul_div_spec(a: int, b: int, c: int) -> int {
    if c <= 0 {
        0
    } else {
        fit_u64((a * b) / c)
    }
}

/// Twice `x`, capped at `u64::MAX`.
pub open spec fn double_capped(x: int) -> int {
    if 2 * x > u64::MAX {
        u64::MAX as int
    } else {
        2 * x
    }
}

/// `10^d`.
pub open spec fn ten_to(d: nat) -> nat
    decreases d,
{
    if d == 0 {
        1
    } else {
        10 * ten_to((d - 1) as nat)
    }
}

/// `10^d` for `d` from 0 to 19, and zero for any other `d`: a token with
/// more decimals has no unit that fits in 64 bits.
pub open spec fn pow10_spec(d: int) -> int {
    if 0 <= d <= MAX_DECIMALS {
        ten_to(d as nat) as int
    } else {
        0
    }
}

/// A power of ten grows with its exponent.
pub proof fn lemma_ten_to_increases(d1: nat, d2: nat)
    requires
        d1 <= d2,
    ensures
        1 <= ten_to(d1) <= ten_to(d2),
    decreases d2,
{
    if d2 > 0 {
        if d1 < d2 {
            lemma_ten_to_increases(d1, (d2 - 1) as nat);
        } else {
            lemma_ten_to_increases((d1 - 1) as nat, (d2 - 1) as nat);
        }
    }
}

/// The unit of a token with at most 19 decimals is at least one and
/// fits in 64 bits.
pub proof fn lemma_pow10_range(d: int)
    ensures
        0 <= d <= MAX_DECIMALS ==> 1 <= pow10_spec(d) <= 10_000_000_000_000_000_000,
        !(0 <= d <= MAX_DECIMALS) ==> pow10_spec(d) == 0,
{
    if 0 <= d <= MAX_DECIMALS {
        lemma_ten_to_increases(d as nat, 19);
        assert(ten_to(19) == 10_000_000_000_000_000_000) by {
            reveal_with_fuel(ten_to, 20);
        }
    }
}

/// Value in dollars of `amount` smallest units at `price` per whole token.
pub open spec fn amount_to_usd_spec(amount: int, decimals: int, price: int) -> int {
    mul_div_spec(amount, price, pow10_spec(decimals))
}

/// Smallest units of a token that `worth` dollars buy at `price`.
pub open spec fn usd_to_amount_spec(worth: int, decimals: int, price: int) -> int {
    mul_div_spec(worth, pow10_spec(decimals), price)
}

/// Computes `floor(a * b / c)` through a 128-bit product. A zero divisor
/// or a quotient above `u64::MAX` gives zero.
pub fn mul_div(a: u64, b: u64, c: u64) -> (r: u64)
    ensures
        r == mul_div_spec(a as int, b as int, c as int),
        r * c <= a * b,
        r == 0 <==> c == 0 || a * b < c || (a * b) / (c as int) > u64::MAX,
{
    proof {
        lemma_mul_div_at_most_exact(a as int, b as int, c as int);
        lemma_mul_div_zero_exactly(a as int, b as int, c as int);
    }
    if c == 0 {
        return 0;
    }
    assert(a * b <= 0xFFFF_FFFF_FFFF_FFFF * 0xFFFF_FFFF_FFFF_FFFF) by (nonlinear_arith)
        requires
            a <= 0xFFFF_FFFF_FFFF_FFFF,
            b <= 0xFFFF_FFFF_FFFF_FFFF,
    ;
    let product: u128 = (a as u128) * (b as u128);
    let quotient: u128 = product / (c as u128);
    assert(quotient * c <= product) by (nonlinear_arith)
        requires
            c > 0,
            quotient == product / (c as u128),
    ;
    if quotient > 0xFFFF_FFFF_FFFF_FFFF {
        0
    } else {
        quotient as u64
    }
}

/// The result times the divisor never exceeds the exact product: the
/// result is at most the exact quotient.
pub proof fn lemma_mul_div_at_most_exact(a: int, b: int, c: int)
    requires
        0 <= a,
        0 <= b,
        0 <= c,
    ensures
        mul_div_spec(a, b, c) * c <= a * b,
        c > 0 ==> mul_div_spec(a, b, c) <= (a * b) / c,
{
    assert(0 <= a * b) by (nonlinear_arith)
        requires
            0 <= a,
            0 <= b,
    ;
    if c > 0 {
        let q = (a * b) / c;
        assert(q * c <= a * b && 0 <= q) by (nonlinear_arith)
            requires
                c > 0,
                0 <= a * b,
                q == (a * b) / c,
        ;
    }
}

/// The result is zero exactly when the divisor is zero, the product is
/// less than the divisor, or the quotient does not fit in 64 bits.
pub proof fn lemma_mul_div_zero_exactly(a: int, b: int, c: int)
    requires
        0 <= a,
        0 <= b,
        0 <= c,
    ensures
        mul_div_spec(a, b, c) == 0 <==> c == 0 || a * b < c || (a * b) / c > u64::MAX,
{
    assert(0 <= a * b) by (nonlinear_arith)
        requires
            0 <= a,
            0 <= b,
    ;
    if c > 0 {
        let n = a * b;
        assert((n / c == 0) <==> n < c) by (nonlinear_arith)
            requires
                c > 0,
                0 <= n,
        ;
        assert(0 <= n / c) by (nonlinear_arith)
            requires
                c > 0,
                0 <= n,
        ;
    }
}

/// Where the quotient is at least one and fits in 64 bits, or a factor
/// or the divisor is zero, the result is zero exactly when the divisor
/// or the product is.
pub proof fn lemma_mul_div_zero_iff(a: int, b: int, c: int)
    requires
        0 <= a,
        0 <= b,
        0 <= c,
        c == 0 || a * b == 0 || (c <= a * b && (a * b) / c <= u64::MAX),
    ensures
        mul_div_spec(a, b, c) == 0 <==> c == 0 || a * b == 0,
{
    lemma_mul_div_zero_exactly(a, b, c);
}

/// A product with a zero factor divides to zero.
pub proof fn lemma_mul_div_zero(a: int, b: int, c: int)
    requires
        a == 0 || b == 0,
    ensures
        mul_div_spec(a, b, c) == 0,
{
    assert(a * b == 0) by (nonlinear_arith)
        requires
            a == 0 || b == 0,
    ;
}

/// The result of `mul_div` is a 64-bit number.
pub proof fn lemma_mul_div_range(a: int, b: int, c: int)
    ensures
        0 <= mul_div_spec(a, b, c) <= u64::MAX,
{
}

/// Scaling by a fraction of at most one does not increase a number.
pub proof fn lemma_mul_div_le(a: int, b: int, c: int)
    requires
        0 <= a,
        0 <= b <= c,
    ensures
        mul_div_spec(a, b, c) <= a,
{
    if c > 0 {
        assert((a * b) / c <= a) by (nonlinear_arith)
            requires
                0 <= a,
                0 <= b <= c,
                c > 0,
        ;
    }
}

/// Twice `x`, capped at `u64::MAX`.
pub fn double_capped_u64(x: u64) -> (r: u64)
    ensures
        r == double_capped(x as int),
{
    if x > u64::MAX / 2 {
        u64::MAX
    } else {
        x * 2
    }
}

/// `10^decimals`, or zero when that does not fit in 64 bits.
pub fn pow10(decimals: u8) -> (r: u64)
    ensures
        r == pow10_spec(decimals as int),
{
    if decimals > MAX_DECIMALS {
        return 0;
    }
    let mut r: u64 = 1;
    let mut i: u8 = 0;
    while i < decimals
        invariant
            i <= decimals <= 19,
            r == ten_to(i as nat),
        decreases decimals - i,
    {
        proof {
            lemma_ten_to_increases((i + 1) as nat, 19);
            assert(ten_to(19) == 10_000_000_000_000_000_000) by {
                reveal_with_fuel(ten_to, 20);
            }
        }
        r = r * 10;
        i = i + 1;
    }
    r
}

} // verus!
