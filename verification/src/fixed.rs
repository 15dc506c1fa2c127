//! Fixed-point arithmetic for combat quantities.
//!
//! Every quantity of the engine (damage, armor, health, percentages, seconds)
//! is a signed 64-bit count of billionths: the value `1.5` is stored as
//! `1_500_000_000`. Sums and products are formed in 128 bits, divided with
//! rounding toward negative infinity, and clamped to the 64-bit range.
use vstd::arithmetic::div_mod::lemma_fundamental_div_mod;
use vstd::arithmetic::div_mod::lemma_fundamental_div_mod_converse;
use vstd::arithmetic::div_mod::lemma_hoist_over_denominator;
use vstd::prelude::*;

verus! {

/// A quantity in billionths of a unit.
pub type Fixed = i64;

/// The stored value of `1.0`.
pub const UNIT: i64 = 1_000_000_000;

/// The stored value of `100.0`: one hundred percent, and the constant of the
/// resistance law.
pub const HUNDRED: i64 = 100_000_000_000;

/// The nearest 64-bit value to `x`.
pub open spec fn clamp(x: int) -> int {
    if x < i64::MIN {
        i64::MIN as int
    } else if x > i64::MAX {
        i64::MAX as int
    } else {
        x
    }
}

/// The quotient `n / d` rounded toward negative infinity, for either sign of
/// `d`; zero where `d` is zero.
pub open spec fn div_floor(n: int, d: int) -> int {
    if d > 0 {
        n / d
    } else if d < 0 {
        (-n) / (-d)
    } else {
        0
    }
}

/// `a * b / d`, rounded down and clamped: the product of two quantities when
/// `d` is [`UNIT`], a quantity scaled by the ratio `b / d` otherwise.
pub open spec fn scale(a: int, b: int, d: int) -> int {
    clamp(div_floor(a * b, d))
}

/// The product of two 64-bit values has at most 126 bits.
pub proof fn lemma_product_fits(a: int, b: int)
    requires
        i64::MIN <= a <= i64::MAX,
        i64::MIN <= b <= i64::MAX,
    ensures
        -0x4000_0000_0000_0000_0000_0000_0000_0000 <= a * b
            <= 0x4000_0000_0000_0000_0000_0000_0000_0000,
{
    assert(-0x4000_0000_0000_0000_0000_0000_0000_0000 <= a * b
        <= 0x4000_0000_0000_0000_0000_0000_0000_0000) by (nonlinear_arith)
        requires
            -0x8000_0000_0000_0000 <= a <= 0x7fff_ffff_ffff_ffff,
            -0x8000_0000_0000_0000 <= b <= 0x7fff_ffff_ffff_ffff,
    ;
}

/// Clamps a 128-bit intermediate to the 64-bit range.
pub fn saturate(x: i128) -> (r: i64)
    ensures
        r == clamp(x as int),
{
    if x < i64::MIN as i128 {
        i64::MIN
    } else if x > i64::MAX as i128 {
        i64::MAX
    } else {
        x as i64
    }
}

/// Division rounded toward negative infinity. The quotient lies between
/// zero and what was divided.
pub fn floor_div(n: i128, d: i128) -> (q: i128)
    requires
        d > 0,
        n > i128::MIN,
    ensures
        q == div_floor(n as int, d as int),
        n >= 0 ==> 0 <= q <= n,
        n < 0 ==> n <= q < 0,
{
    if n >= 0 {
        assert(0 <= (n as int) / (d as int) <= n) by (nonlinear_arith)
            requires
                n >= 0,
                d > 0,
        ;
        n / d
    } else {
        let m: i128 = -n;
        assert(0 <= (m as int) / (d as int) <= m) by (nonlinear_arith)
            requires
                m > 0,
                d > 0,
        ;
        let q0: i128 = m / d;
        let r0: i128 = m % d;
        proof {
            lemma_fundamental_div_mod(m as int, d as int);
            if r0 != 0 && q0 == m {
                assert(false) by (nonlinear_arith)
                    requires
                        m == d * q0 + r0,
                        q0 == m,
                        r0 > 0,
                        d > 0,
                        m > 0,
                ;
            }
            if r0 == 0 {
                assert(n as int == (-q0) * d) by (nonlinear_arith)
                    requires
                        m == d * q0 + r0,
                        r0 == 0,
                        n == -m,
                ;
                lemma_fundamental_div_mod_converse(n as int, d as int, -q0 as int, 0);
            } else {
                assert(n as int == (-q0 - 1) * d + (d - r0)) by (nonlinear_arith)
                    requires
                        m == d * q0 + r0,
                        n == -m,
                ;
                lemma_fundamental_div_mod_converse(
                    n as int,
                    d as int,
                    (-q0 - 1) as int,
                    (d - r0) as int,
                );
            }
        }
        if r0 == 0 {
            -q0
        } else {
            -q0 - 1
        }
    }
}

/// `a + b`, clamped.
pub fn sat_add(a: Fixed, b: Fixed) -> (r: Fixed)
    ensures
        r == clamp(a + b),
{
    saturate(a as i128 + b as i128)
}

/// `a - b`, clamped.
pub fn sat_sub(a: Fixed, b: Fixed) -> (r: Fixed)
    ensures
        r == clamp(a - b),
{
    saturate(a as i128 - b as i128)
}

/// `a * b / d`, rounded down and clamped.
pub fn mul_div(a: Fixed, b: Fixed, d: Fixed) -> (r: Fixed)
    requires
        d != 0,
    ensures
        r == scale(a as int, b as int, d as int),
{
    proof {
        lemma_product_fits(a as int, b as int);
    }
    let p: i128 = a as i128 * b as i128;
    if d > 0 {
        saturate(floor_div(p, d as i128))
    } else {
        saturate(floor_div(-p, -(d as i128)))
    }
}

/// `x * (1 - percent / 100)`.
pub open spec fn percent_off(x: int, percent: int) -> int {
    div_floor(x * (HUNDRED - percent), HUNDRED as int)
}

/// `x * (1 + percent / 100)`.
pub open spec fn percent_on(x: int, percent: int) -> int {
    div_floor(x * (HUNDRED + percent), HUNDRED as int)
}

/// Taking a percentage off is the amount less its rounded-up share; taking
/// nothing off leaves the amount.
pub proof fn lemma_percent_off(x: int, percent: int)
    ensures
        percent_off(x, percent) == x + div_floor(-(x * percent), HUNDRED as int),
        percent == 0 ==> percent_off(x, percent) == x,
{
    let y = -(x * percent);
    assert(x * (HUNDRED - percent) == y + x * HUNDRED) by (nonlinear_arith)
        requires
            y == -(x * percent),
    ;
    lemma_hoist_over_denominator(y, x, HUNDRED as nat);
    if percent == 0 {
        assert(y == 0) by (nonlinear_arith)
            requires
                y == -(x * percent),
                percent == 0,
        ;
    }
}

/// Putting a percentage on is the amount plus its rounded-down share.
pub proof fn lemma_percent_on(x: int, percent: int)
    ensures
        percent_on(x, percent) == x + div_floor(x * percent, HUNDRED as int),
        percent == 0 ==> percent_on(x, percent) == x,
{
    let y = x * percent;
    assert(x * (HUNDRED + percent) == y + x * HUNDRED) by (nonlinear_arith)
        requires
            y == x * percent,
    ;
    lemma_hoist_over_denominator(y, x, HUNDRED as nat);
    if percent == 0 {
        assert(y == 0) by (nonlinear_arith)
            requires
                y == x * percent,
                percent == 0,
        ;
    }
}

/// `x * (1 - percent / 100)`, clamped.
pub fn take_percent_off(x: Fixed, percent: Fixed) -> (r: Fixed)
    ensures
        r == clamp(percent_off(x as int, percent as int)),
        percent == 0 ==> r == x,
{
    proof {
        lemma_percent_off(x as int, percent as int);
        lemma_product_fits(x as int, percent as int);
    }
    let share: i128 = floor_div(-(x as i128 * percent as i128), HUNDRED as i128);
    saturate(x as i128 + share)
}

/// `x * (1 + percent / 100)`, clamped.
pub fn put_percent_on(x: Fixed, percent: Fixed) -> (r: Fixed)
    ensures
        r == clamp(percent_on(x as int, percent as int)),
        percent == 0 ==> r == x,
{
    proof {
        lemma_percent_on(x as int, percent as int);
        lemma_product_fits(x as int, percent as int);
    }
    let share: i128 = floor_div(x as i128 * percent as i128, HUNDRED as i128);
    saturate(x as i128 + share)
}

} // verus!
