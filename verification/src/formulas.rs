//! Resistance and level formulas. All quantities are [`Fixed`].
use crate::fixed::clamp;
use crate::fixed::div_floor;
use crate::fixed::floor_div;
use crate::fixed::lemma_product_fits;
use crate::fixed::saturate;
use crate::fixed::Fixed;
use crate::fixed::HUNDRED;
use vstd::arithmetic::div_mod::lemma_div_multiples_vanish;
use vstd::arithmetic::div_mod::lemma_div_is_ordered;
use vstd::arithmetic::div_mod::lemma_fundamental_div_mod;
use vstd::arithmetic::div_mod::lemma_hoist_over_denominator;
use vstd::prelude::*;

verus! {

/// Damage left of `raw` after a resistance of `resist`.
///
/// A positive resistance scales damage by `100 / (100 + resist)`. Any other
/// resistance scales it by `2 - 100 / (100 - resist)`, which is
/// `(100 - 2 * resist) / (100 - resist)`.
pub open spec fn resisted(raw: int, resist: int) -> int {
    if resist > 0 {
        div_floor(raw * HUNDRED, HUNDRED + resist)
    } else {
        div_floor(raw * (HUNDRED - 2 * resist), HUNDRED - resist)
    }
}

/// The amplified branch of [`resisted`] is the raw damage plus its share
/// `-resist / (100 - resist)`.
pub proof fn lemma_resisted_amplified(raw: int, resist: int)
    requires
        resist <= 0,
    ensures
        resisted(raw, resist) == raw + div_floor(raw * (-resist), HUNDRED - resist),
{
    let d = HUNDRED - resist;
    let x = raw * (-resist);
    assert(raw * (HUNDRED - 2 * resist) == x + raw * d) by (nonlinear_arith)
        requires
            d == HUNDRED - resist,
            x == raw * (-resist),
    ;
    lemma_hoist_over_denominator(x, raw, d as nat);
}

/// Resistance of zero leaves damage as it is. Against positive damage, a
/// positive resistance leaves less than the damage, and more than nothing
/// exactly where what is left reaches one billionth; a negative resistance
/// leaves less than twice the damage and never less than the damage, and
/// more than the damage exactly where the amplified share reaches one
/// billionth.
pub proof fn lemma_resisted_by_sign(raw: int, resist: int)
    ensures
        resist == 0 ==> resisted(raw, resist) == raw,
        resist > 0 && raw > 0 ==> 0 <= resisted(raw, resist) < raw,
        resist > 0 && raw > 0 ==> (resisted(raw, resist) > 0 <==> raw * HUNDRED >= HUNDRED
            + resist),
        resist < 0 && raw > 0 ==> raw <= resisted(raw, resist) < 2 * raw,
        resist < 0 && raw > 0 ==> (resisted(raw, resist) > raw <==> raw * (-resist) >= HUNDRED
            - resist),
{
    if resist == 0 {
        lemma_div_multiples_vanish(raw, HUNDRED as int);
        assert(raw * HUNDRED == HUNDRED * raw) by (nonlinear_arith);
    } else if resist > 0 {
        if raw > 0 {
            let d = HUNDRED + resist;
            let p = raw * HUNDRED;
            assert(0 <= p && p < raw * d) by (nonlinear_arith)
                requires
                    p == raw * HUNDRED,
                    d == HUNDRED + resist,
                    resist > 0,
                    raw > 0,
            ;
            assert(0 <= p / d < raw) by (nonlinear_arith)
                requires
                    0 <= p < raw * d,
                    d > 0,
            ;
            assert(p / d > 0 <==> p >= d) by (nonlinear_arith)
                requires
                    0 <= p,
                    d > 0,
            ;
        }
    } else {
        if raw > 0 {
            lemma_resisted_amplified(raw, resist);
            let d = HUNDRED - resist;
            let x = raw * (-resist);
            assert(0 <= x && x < raw * d) by (nonlinear_arith)
                requires
                    x == raw * (-resist),
                    d == HUNDRED - resist,
                    resist < 0,
                    raw > 0,
            ;
            assert(0 <= x / d < raw) by (nonlinear_arith)
                requires
                    0 <= x < raw * d,
                    d > 0,
            ;
            assert(x / d > 0 <==> x >= d) by (nonlinear_arith)
                requires
                    0 <= x,
                    d > 0,
            ;
        }
    }
}

/// Resistance never turns damage into healing: damage that is not negative
/// stays so.
pub proof fn lemma_resisted_not_negative(raw: int, resist: int)
    requires
        raw >= 0,
    ensures
        resisted(raw, resist) >= 0,
{
    if resist > 0 {
        let d = HUNDRED + resist;
        let p = raw * HUNDRED;
        assert(p / d >= 0) by (nonlinear_arith)
            requires
                p == raw * HUNDRED,
                raw >= 0,
                d > 0,
        ;
    } else {
        lemma_resisted_amplified(raw, resist);
        let d = HUNDRED - resist;
        let x = raw * (-resist);
        assert(x / d >= 0) by (nonlinear_arith)
            requires
                x == raw * (-resist),
                raw >= 0,
                resist <= 0,
                d > 0,
        ;
    }
}

/// Applies a resistance to raw damage: [`resisted`], clamped.
///
/// Against positive damage a positive resistance leaves less than the
/// damage and a negative one never less. The result is rounded down to the
/// billionth and stops at the end of the range: it is above zero, or above
/// the damage, exactly where the clauses say.
pub fn resist_damage(raw_damage: Fixed, resist_amount: Fixed) -> (r: Fixed)
    ensures
        r == clamp(resisted(raw_damage as int, resist_amount as int)),
        resist_amount == 0 ==> r == raw_damage,
        resist_amount > 0 && raw_damage > 0 ==> 0 <= r < raw_damage,
        resist_amount > 0 && raw_damage > 0 ==> (r > 0 <==> raw_damage * HUNDRED >= HUNDRED
            + resist_amount),
        resist_amount < 0 && raw_damage > 0 ==> raw_damage <= r < 2 * raw_damage,
        resist_amount < 0 && raw_damage > 0 ==> (r > raw_damage <==> raw_damage * (-resist_amount)
            >= HUNDRED - resist_amount && raw_damage < i64::MAX),
        raw_damage >= 0 ==> r >= 0,
{
    proof {
        lemma_resisted_by_sign(raw_damage as int, resist_amount as int);
        if raw_damage >= 0 {
            lemma_resisted_not_negative(raw_damage as int, resist_amount as int);
        }
    }
    if resist_amount > 0 {
        proof {
            lemma_product_fits(raw_damage as int, HUNDRED as int);
        }
        let p: i128 = raw_damage as i128 * HUNDRED as i128;
        saturate(floor_div(p, HUNDRED as i128 + resist_amount as i128))
    } else {
        let m: i128 = -(resist_amount as i128);
        proof {
            lemma_resisted_amplified(raw_damage as int, resist_amount as int);
            lemma_product_fits(raw_damage as int, resist_amount as int);
            assert(raw_damage as int * (-(resist_amount as int)) == -(raw_damage as int
                * resist_amount as int)) by (nonlinear_arith);
        }
        let share: i128 = floor_div(raw_damage as i128 * m, HUNDRED as i128 + m);
        saturate(raw_damage as i128 + share)
    }
}

/// Armor penetration that `lethality` is worth at `level`:
/// `lethality * (0.6 + 0.4 * level / 18)`, which is
/// `lethality * (27 + level) / 45`.
pub open spec fn penetration(lethality: int, level: int) -> int {
    div_floor(lethality * (27 + level), 45)
}

/// Between levels 1 and 18 a non-negative lethality is worth at least six
/// tenths of itself and at most itself, grows with level, and is worth
/// exactly itself at level 18.
pub proof fn lemma_penetration_bounds(lethality: int, level: int)
    requires
        lethality >= 0,
        1 <= level <= 18,
    ensures
        div_floor(lethality * 6, 10) <= penetration(lethality, 1),
        penetration(lethality, 1) <= penetration(lethality, level),
        penetration(lethality, level) <= penetration(lethality, 18),
        penetration(lethality, 18) == lethality,
{
    assert(lethality * (27 + 18) == 45 * lethality) by (nonlinear_arith);
    lemma_div_multiples_vanish(lethality, 45);
    assert(lethality * (27 + 1) <= lethality * (27 + level) <= lethality * (27 + 18))
        by (nonlinear_arith)
        requires
            lethality >= 0,
            1 <= level <= 18,
    ;
    lemma_div_is_ordered(lethality * (27 + 1), lethality * (27 + level), 45);
    lemma_div_is_ordered(lethality * (27 + level), lethality * (27 + 18), 45);
    assert((lethality * 6) / 10 <= (lethality * 28) / 45) by (nonlinear_arith)
        requires
            lethality >= 0,
    ;
}

/// Converts lethality to flat armor penetration at a champion level:
/// [`penetration`], clamped.
pub fn lethality_to_pen(lethality: Fixed, level: u32) -> (r: Fixed)
    ensures
        r == clamp(penetration(lethality as int, level as int)),
        level == 18 ==> r == lethality,
        lethality >= 0 && 1 <= level <= 18 ==> div_floor(lethality * 6, 10) <= r <= lethality,
{
    let factor: i64 = 27 + level as i64;
    proof {
        lemma_product_fits(lethality as int, factor as int);
        if lethality >= 0 && 1 <= level <= 18 {
            lemma_penetration_bounds(lethality as int, level as int);
        }
        if level == 18 {
            assert(lethality as int * (27 + 18) == 45 * lethality as int) by (nonlinear_arith);
            lemma_div_multiples_vanish(lethality as int, 45);
        }
    }
    saturate(floor_div(lethality as i128 * factor as i128, 45))
}

/// A statistic after `level - 1` level-ups:
/// `base + growth * (level - 1) * (0.7025 + 0.0175 * (level - 1))`.
pub open spec fn grown(base: int, growth: int, level: int) -> int {
    base + div_floor(growth * ((level - 1) * (7025 + 175 * (level - 1))), 10000)
}

/// Value of a statistic at a champion level: [`grown`], clamped. At level 1
/// it is the base value.
pub fn stat_at_level(base: Fixed, growth: Fixed, level: u8) -> (r: Fixed)
    ensures
        r == clamp(grown(base as int, growth as int, level as int)),
        level == 1 ==> r == base,
{
    let n: i64 = level as i64 - 1;
    assert(-7025 <= n * (7025 + 175 * n) <= 254 * (7025 + 175 * 254)) by (nonlinear_arith)
        requires
            -1 <= n <= 254,
    ;
    let curve: i64 = n * (7025 + 175 * n);
    proof {
        lemma_product_fits(growth as int, curve as int);
        if level == 1 {
            assert(curve == 0) by (nonlinear_arith)
                requires
                    n == 0,
                    curve == n * (7025 + 175 * n),
            ;
            assert(growth as int * curve as int == 0) by (nonlinear_arith)
                requires
                    curve == 0,
            ;
        }
    }
    let gain: i128 = floor_div(growth as i128 * curve as i128, 10000);
    saturate(base as i128 + gain)
}

/// The stored value of `500.0`, above which ability haste no longer counts.
pub const HASTE_CAP: i64 = 500_000_000_000;

/// Cooldown reduction in percent that `haste` is worth:
/// `100 * haste / (haste + 100)`, with haste capped at 500.
pub open spec fn cooldown_reduction(haste: int) -> int {
    let capped = if haste > HASTE_CAP { HASTE_CAP as int } else { haste };
    div_floor(capped * HUNDRED, capped + HUNDRED)
}

/// Converts ability haste to cooldown reduction in percent:
/// [`cooldown_reduction`], clamped. A haste of exactly `-100` has no
/// reduction and is left out.
pub fn haste_to_cdr(haste: Fixed) -> (r: Fixed)
    requires
        haste != -HUNDRED,
    ensures
        r == clamp(cooldown_reduction(haste as int)),
{
    let capped: i64 = if haste > HASTE_CAP { HASTE_CAP } else { haste };
    proof {
        lemma_product_fits(capped as int, HUNDRED as int);
    }
    let p: i128 = capped as i128 * HUNDRED as i128;
    let d: i128 = capped as i128 + HUNDRED as i128;
    if d > 0 {
        saturate(floor_div(p, d))
    } else {
        saturate(floor_div(-p, -d))
    }
}

/// Two percentages stacked with diminishing returns:
/// `1 - (1 - a)(1 - b)` on fractions, which is `a + b - a * b / 100` on
/// percentages.
pub open spec fn stacked(a: int, b: int) -> int {
    a + b - div_floor(a * b, HUNDRED as int)
}

/// Stacking loses less than a billionth: of what two percentages between 0
/// and 100 leave unpenetrated, `(100 - a)(100 - b) / 100`, the stacked
/// percentage leaves the whole billionths.
pub proof fn lemma_stacked_remainder(a: int, b: int)
    requires
        0 <= a <= HUNDRED,
        0 <= b <= HUNDRED,
    ensures
        0 <= stacked(a, b) <= HUNDRED,
        (HUNDRED - stacked(a, b)) * HUNDRED <= (HUNDRED - a) * (HUNDRED - b),
        (HUNDRED - a) * (HUNDRED - b) < (HUNDRED - stacked(a, b) + 1) * HUNDRED,
{
    let h = HUNDRED as int;
    let q = (a * b) / h;
    lemma_fundamental_div_mod(a * b, h);
    assert(q * h <= a * b < (q + 1) * h) by (nonlinear_arith)
        requires
            a * b == h * q + (a * b) % h,
            0 <= (a * b) % h < h,
    ;
    let left = h - stacked(a, b);
    assert(left == h - a - b + q);
    assert((h - a) * (h - b) == h * h - a * h - b * h + a * b) by (nonlinear_arith);
    assert(left * h == h * h - a * h - b * h + q * h) by (nonlinear_arith)
        requires
            left == h - a - b + q,
    ;
    assert((left + 1) * h == left * h + h) by (nonlinear_arith);
    assert((q + 1) * h == q * h + h) by (nonlinear_arith);
    assert(0 <= (h - a) * (h - b) <= h * h) by (nonlinear_arith)
        requires
            0 <= a <= h,
            0 <= b <= h,
    ;
    assert(0 <= left <= h) by (nonlinear_arith)
        requires
            left * h <= (h - a) * (h - b),
            (h - a) * (h - b) < (left + 1) * h,
            0 <= (h - a) * (h - b) <= h * h,
            h > 0,
    ;
}

/// Stacks two percentages multiplicatively: [`stacked`], clamped.
pub fn stack_multiplicative_reduction(a: Fixed, b: Fixed) -> (r: Fixed)
    ensures
        r == clamp(stacked(a as int, b as int)),
        a == 0 ==> r == b,
        b == 0 ==> r == a,
{
    proof {
        lemma_product_fits(a as int, b as int);
        let x = a as int * b as int;
        if a == 0 || b == 0 {
            assert(x == 0) by (nonlinear_arith)
                requires
                    x == a as int * b as int,
                    a == 0 || b == 0,
            ;
        }
    }
    let overlap: i128 = floor_div(a as i128 * b as i128, HUNDRED as i128);
    saturate(a as i128 + b as i128 - overlap)
}

} // verus!
