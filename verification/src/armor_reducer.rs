//! Armor reduction and penetration.
use crate::fixed::clamp;
use crate::fixed::div_floor;
use crate::fixed::floor_div;
use crate::fixed::lemma_percent_off;
use crate::fixed::lemma_product_fits;
use crate::fixed::percent_off;
use crate::fixed::sat_add;
use crate::fixed::saturate;
use crate::fixed::take_percent_off;
use crate::fixed::Fixed;
use crate::fixed::HUNDRED;
use crate::formulas::lemma_stacked_remainder;
use crate::formulas::lethality_to_pen;
use crate::formulas::penetration;
use crate::formulas::stack_multiplicative_reduction;
use crate::formulas::stacked;
use crate::load_champion::ChampionStats;
use crate::target::VitalityData;
use vstd::prelude::*;
use vstd::std_specs::convert::FromSpecImpl;

verus! {

/// Everything that lowers the armor an attack has to go through, summed
/// over its sources. Flat amounts are armor points, the others percentages.
#[derive(Clone, Copy, Debug)]
pub struct ArmorReducer {
    pub flat_armor_reduction: Fixed,
    pub percent_armor_reduction: Fixed,
    /// Lethality converted at the attacker's level.
    pub flat_armor_pen: Fixed,
    pub percent_armor_pen: Fixed,
    pub percent_bonus_armor_pen: Fixed,
}

/// The part of a flat reduction that falls on base armor: in proportion to
/// base armor's part of the total, and one half where the total is zero.
pub open spec fn base_share(flat: int, base: int, bonus: int) -> int {
    if base + bonus != 0 {
        div_floor(flat * base, base + bonus)
    } else {
        div_floor(flat, 2)
    }
}

/// One armor component after its share of the flat reduction and then the
/// percent reduction, which applies only to what is still positive.
pub open spec fn component_after(armor: int, share: int, percent: int) -> int {
    let cut = clamp(armor - share);
    if cut > 0 {
        clamp(percent_off(cut, percent))
    } else {
        cut
    }
}

impl ArmorReducer {
    /// The reducer that changes nothing.
    pub open spec fn zero() -> ArmorReducer {
        ArmorReducer {
            flat_armor_reduction: 0,
            percent_armor_reduction: 0,
            flat_armor_pen: 0,
            percent_armor_pen: 0,
            percent_bonus_armor_pen: 0,
        }
    }

    /// Base armor of `target` after flat and percent reduction.
    pub open spec fn reduced_base(&self, target: VitalityData) -> int {
        component_after(
            target.base_armor as int,
            base_share(
                self.flat_armor_reduction as int,
                target.base_armor as int,
                target.bonus_armor as int,
            ),
            self.percent_armor_reduction as int,
        )
    }

    /// Bonus armor of `target` after flat and percent reduction. Its share of
    /// the flat reduction is what base armor's share leaves.
    pub open spec fn reduced_bonus(&self, target: VitalityData) -> int {
        component_after(
            target.bonus_armor as int,
            self.flat_armor_reduction - base_share(
                self.flat_armor_reduction as int,
                target.base_armor as int,
                target.bonus_armor as int,
            ),
            self.percent_armor_reduction as int,
        )
    }

    /// `target` with both armor components reduced.
    pub open spec fn reduced(&self, target: VitalityData) -> VitalityData {
        VitalityData {
            base_armor: self.reduced_base(target) as i64,
            bonus_armor: self.reduced_bonus(target) as i64,
            ..target
        }
    }

    /// Armor after reduction and percent penetration, before lethality:
    /// bonus armor less the bonus penetration, plus base armor, less the
    /// percent penetration.
    pub open spec fn penetrated_armor(&self, target: VitalityData) -> int {
        clamp(
            percent_off(
                clamp(
                    clamp(
                        percent_off(
                            self.reduced_bonus(target),
                            self.percent_bonus_armor_pen as int,
                        ),
                    ) + self.reduced_base(target),
                ),
                self.percent_armor_pen as int,
            ),
        )
    }

    /// The armor that damage from this source goes through. Negative armor
    /// is left as it is; otherwise flat penetration comes off, down to zero.
    pub open spec fn effective_armor(&self, target: VitalityData) -> int {
        let armor = self.penetrated_armor(target);
        if armor < 0 {
            armor
        } else if armor - self.flat_armor_pen < 0 {
            0
        } else {
            clamp(armor - self.flat_armor_pen)
        }
    }

    /// This reducer with the sources of `other` added: sums, but for
    /// percent penetration, which stacks with diminishing returns.
    pub open spec fn combined(&self, other: ArmorReducer) -> ArmorReducer {
        ArmorReducer {
            flat_armor_reduction: clamp(self.flat_armor_reduction + other.flat_armor_reduction) as i64,
            percent_armor_reduction: clamp(
                self.percent_armor_reduction + other.percent_armor_reduction,
            ) as i64,
            flat_armor_pen: clamp(self.flat_armor_pen + other.flat_armor_pen) as i64,
            percent_armor_pen: clamp(
                stacked(self.percent_armor_pen as int, other.percent_armor_pen as int),
            ) as i64,
            percent_bonus_armor_pen: clamp(
                self.percent_bonus_armor_pen + other.percent_bonus_armor_pen,
            ) as i64,
        }
    }

    /// The reducer a champion with `stats` has by itself at `level`: its
    /// lethality and its percent penetration.
    pub open spec fn of_stats(stats: ChampionStats, level: u8) -> ArmorReducer {
        ArmorReducer {
            flat_armor_reduction: 0,
            percent_armor_reduction: 0,
            flat_armor_pen: clamp(penetration(stats.lethality as int, level as int)) as i64,
            percent_armor_pen: stats.percent_armor_pen,
            percent_bonus_armor_pen: 0,
        }
    }

    /// Applies flat, then percent armor reduction to `target` in place.
    pub fn apply_armor_reduction(&self, target: &mut VitalityData)
        ensures
            *final(target) == self.reduced(*old(target)),
    {
        let flat: i128 = self.flat_armor_reduction as i128;
        let total: i128 = target.base_armor as i128 + target.bonus_armor as i128;
        proof {
            lemma_product_fits(self.flat_armor_reduction as int, target.base_armor as int);
        }
        let share: i128 = if total > 0 {
            floor_div(flat * target.base_armor as i128, total)
        } else if total < 0 {
            floor_div(-(flat * target.base_armor as i128), -total)
        } else {
            floor_div(flat, 2)
        };
        let base_cut: Fixed = saturate(target.base_armor as i128 - share);
        let bonus_cut: Fixed = saturate(target.bonus_armor as i128 - (flat - share));
        target.base_armor = if base_cut > 0 {
            take_percent_off(base_cut, self.percent_armor_reduction)
        } else {
            base_cut
        };
        target.bonus_armor = if bonus_cut > 0 {
            take_percent_off(bonus_cut, self.percent_armor_reduction)
        } else {
            bonus_cut
        };
    }

    /// The armor of `target` that damage from this source goes
    /// through. With [`ArmorReducer::zero`] that is base plus bonus armor.
    pub fn get_effective_armor(&self, target: &VitalityData) -> (r: Fixed)
        ensures
            r == self.effective_armor(*target),
            *self == ArmorReducer::zero() ==> r == clamp(
                target.base_armor + target.bonus_armor,
            ),
    {
        let mut reduced = *target;
        self.apply_armor_reduction(&mut reduced);
        let bonus_left = take_percent_off(reduced.bonus_armor, self.percent_bonus_armor_pen);
        let effective_armor = take_percent_off(
            sat_add(bonus_left, reduced.base_armor),
            self.percent_armor_pen,
        );
        proof {
            lemma_zero_reducer(*target);
        }
        if effective_armor < 0 {
            return effective_armor;
        }
        let candidate: i128 = effective_armor as i128 - self.flat_armor_pen as i128;
        if candidate < 0 {
            0
        } else {
            saturate(candidate)
        }
    }

    /// Sets the flat penetration to what `lethality` is worth at `level`.
    pub fn set_from_lethality(&mut self, lethality: Fixed, level: u8)
        ensures
            *final(self) == (ArmorReducer {
                flat_armor_pen: clamp(penetration(lethality as int, level as int)) as i64,
                ..*old(self)
            }),
    {
        self.flat_armor_pen = lethality_to_pen(lethality, level as u32);
    }

    /// Adds the sources of `other` to this reducer.
    pub fn add_armor_reducer(&mut self, other: &ArmorReducer)
        ensures
            *final(self) == old(self).combined(*other),
    {
        self.flat_armor_reduction = sat_add(self.flat_armor_reduction, other.flat_armor_reduction);
        self.percent_armor_reduction = sat_add(
            self.percent_armor_reduction,
            other.percent_armor_reduction,
        );
        self.flat_armor_pen = sat_add(self.flat_armor_pen, other.flat_armor_pen);
        self.percent_armor_pen = stack_multiplicative_reduction(
            self.percent_armor_pen,
            other.percent_armor_pen,
        );
        self.percent_bonus_armor_pen = sat_add(
            self.percent_bonus_armor_pen,
            other.percent_bonus_armor_pen,
        );
    }
}

/// A reducer without any source leaves armor as it is: the effective armor
/// is base plus bonus armor.
pub proof fn lemma_zero_reducer(target: VitalityData)
    ensures
        ArmorReducer::zero().reduced(target) == target,
        ArmorReducer::zero().effective_armor(target) == clamp(
            target.base_armor + target.bonus_armor,
        ),
{
    let zero = ArmorReducer::zero();
    let base = target.base_armor as int;
    let bonus = target.bonus_armor as int;
    assert(0 * base == 0) by (nonlinear_arith);
    assert(base_share(0, base, bonus) == 0);
    lemma_percent_off(base, 0);
    lemma_percent_off(bonus, 0);
    assert(zero.reduced_base(target) == base);
    assert(zero.reduced_bonus(target) == bonus);
    lemma_percent_off(clamp(bonus + base), 0);
}

impl Default for ArmorReducer {
    fn default() -> (r: ArmorReducer)
        ensures
            r == ArmorReducer::zero(),
    {
        ArmorReducer {
            flat_armor_reduction: 0,
            percent_armor_reduction: 0,
            flat_armor_pen: 0,
            percent_armor_pen: 0,
            percent_bonus_armor_pen: 0,
        }
    }
}

impl<'a> From<(&'a ChampionStats, u8)> for ArmorReducer {
    fn from(tuple: (&'a ChampionStats, u8)) -> (r: ArmorReducer) {
        let (stats, level) = tuple;
        ArmorReducer {
            flat_armor_reduction: 0,
            percent_armor_reduction: 0,
            flat_armor_pen: lethality_to_pen(stats.lethality, level as u32),
            percent_armor_pen: stats.percent_armor_pen,
            percent_bonus_armor_pen: 0,
        }
    }
}

impl<'a> FromSpecImpl<(&'a ChampionStats, u8)> for ArmorReducer {
    open spec fn obeys_from_spec() -> bool {
        true
    }

    open spec fn from_spec(tuple: (&'a ChampionStats, u8)) -> ArmorReducer {
        ArmorReducer::of_stats(*tuple.0, tuple.1)
    }
}

impl ArmorReducer {
    /// The five sources that this reducer sums, each a reducer with one
    /// field of this one and nothing else.
    pub open spec fn sources(&self) -> Seq<ArmorReducer> {
        seq![
            ArmorReducer { flat_armor_reduction: self.flat_armor_reduction, ..ArmorReducer::zero() },
            ArmorReducer {
                percent_armor_reduction: self.percent_armor_reduction,
                ..ArmorReducer::zero()
            },
            ArmorReducer { flat_armor_pen: self.flat_armor_pen, ..ArmorReducer::zero() },
            ArmorReducer { percent_armor_pen: self.percent_armor_pen, ..ArmorReducer::zero() },
            ArmorReducer {
                percent_bonus_armor_pen: self.percent_bonus_armor_pen,
                ..ArmorReducer::zero()
            },
        ]
    }

    /// The first `n` of `parts` added one after another to the reducer
    /// that changes nothing.
    pub open spec fn sum_of(parts: Seq<ArmorReducer>, n: nat) -> ArmorReducer
        decreases n,
    {
        if n == 0 {
            ArmorReducer::zero()
        } else {
            Self::sum_of(parts, (n - 1) as nat).combined(parts[n - 1])
        }
    }
}

/// A reducer taken apart into its sources and summed up again, one source
/// after another, is the same reducer, and so gives the same effective
/// armor on every target.
pub proof fn lemma_rebuilt_from_sources(reducer: ArmorReducer, target: VitalityData)
    ensures
        ArmorReducer::sum_of(reducer.sources(), 5) == reducer,
        ArmorReducer::sum_of(reducer.sources(), 5).effective_armor(target) == reducer.effective_armor(
            target,
        ),
{
    let parts = reducer.sources();
    assert(0int * 0int == 0) by (nonlinear_arith);
    assert(0 * (reducer.percent_armor_pen as int) == 0) by (nonlinear_arith);
    assert((reducer.percent_armor_pen as int) * 0 == 0) by (nonlinear_arith);
    let s0 = ArmorReducer::sum_of(parts, 0);
    let s1 = ArmorReducer::sum_of(parts, 1);
    let s2 = ArmorReducer::sum_of(parts, 2);
    let s3 = ArmorReducer::sum_of(parts, 3);
    let s4 = ArmorReducer::sum_of(parts, 4);
    let s5 = ArmorReducer::sum_of(parts, 5);
    assert(s0 == ArmorReducer::zero());
    assert(s1 == s0.combined(parts[0]));
    assert(s2 == s1.combined(parts[1]));
    assert(s3 == s2.combined(parts[2]));
    assert(s4 == s3.combined(parts[3]));
    assert(s5 == s4.combined(parts[4]));
    assert(s1 == ArmorReducer {
        flat_armor_reduction: reducer.flat_armor_reduction,
        ..ArmorReducer::zero()
    });
    assert(s2 == ArmorReducer { percent_armor_reduction: reducer.percent_armor_reduction, ..s1 });
    assert(s3 == ArmorReducer { flat_armor_pen: reducer.flat_armor_pen, ..s2 });
    assert(s4 == ArmorReducer { percent_armor_pen: reducer.percent_armor_pen, ..s3 });
}

/// Adding sources is the same in either order, and adding the reducer that
/// changes nothing changes nothing.
pub proof fn lemma_combined_commutes(a: ArmorReducer, b: ArmorReducer)
    ensures
        a.combined(b) == b.combined(a),
        a.combined(ArmorReducer::zero()) == a,
{
    assert((a.percent_armor_pen as int) * (b.percent_armor_pen as int) == (b.percent_armor_pen as int)
        * (a.percent_armor_pen as int)) by (nonlinear_arith);
    assert((a.percent_armor_pen as int) * 0 == 0) by (nonlinear_arith);
}

/// One source summed up by itself is that source.
pub proof fn lemma_single_source(source: ArmorReducer)
    ensures
        ArmorReducer::sum_of(seq![source], 1) == source,
{
    lemma_combined_commutes(source, ArmorReducer::zero());
    assert(ArmorReducer::sum_of(seq![source], 0) == ArmorReducer::zero());
    assert(seq![source][0] == source);
}

/// Two sources summed up in either order give the same reducer.
pub proof fn lemma_two_sources(a: ArmorReducer, b: ArmorReducer)
    ensures
        ArmorReducer::sum_of(seq![a, b], 2) == ArmorReducer::sum_of(seq![b, a], 2),
{
    lemma_combined_commutes(a, b);
    lemma_combined_commutes(a, ArmorReducer::zero());
    lemma_combined_commutes(b, ArmorReducer::zero());
    assert(ArmorReducer::sum_of(seq![a, b], 0) == ArmorReducer::zero());
    assert(ArmorReducer::sum_of(seq![b, a], 0) == ArmorReducer::zero());
    assert(ArmorReducer::sum_of(seq![a, b], 1) == ArmorReducer::zero().combined(a));
    assert(ArmorReducer::sum_of(seq![b, a], 1) == ArmorReducer::zero().combined(b));
    assert(ArmorReducer::sum_of(seq![a, b], 2) == a.combined(b));
    assert(ArmorReducer::sum_of(seq![b, a], 2) == b.combined(a));
}

/// The four fields of a reducer that sources add to, as exact sums.
pub ghost struct ReducerSums {
    pub flat_armor_reduction: int,
    pub percent_armor_reduction: int,
    pub flat_armor_pen: int,
    pub percent_bonus_armor_pen: int,
}

impl ReducerSums {
    /// Every sum is a 64-bit value.
    pub open spec fn fits(&self) -> bool {
        &&& i64::MIN <= self.flat_armor_reduction <= i64::MAX
        &&& i64::MIN <= self.percent_armor_reduction <= i64::MAX
        &&& i64::MIN <= self.flat_armor_pen <= i64::MAX
        &&& i64::MIN <= self.percent_bonus_armor_pen <= i64::MAX
    }
}

/// The exact sums over the first `n` of `parts`.
pub open spec fn summed(parts: Seq<ArmorReducer>, n: nat) -> ReducerSums
    decreases n,
{
    if n == 0 {
        ReducerSums {
            flat_armor_reduction: 0,
            percent_armor_reduction: 0,
            flat_armor_pen: 0,
            percent_bonus_armor_pen: 0,
        }
    } else {
        let before = summed(parts, (n - 1) as nat);
        ReducerSums {
            flat_armor_reduction: before.flat_armor_reduction + parts[n - 1].flat_armor_reduction,
            percent_armor_reduction: before.percent_armor_reduction + parts[n
                - 1].percent_armor_reduction,
            flat_armor_pen: before.flat_armor_pen + parts[n - 1].flat_armor_pen,
            percent_bonus_armor_pen: before.percent_bonus_armor_pen + parts[n
                - 1].percent_bonus_armor_pen,
        }
    }
}

/// What the first `n` of `parts` leave unpenetrated together, exactly: the
/// product of what each leaves of a hundred percent.
pub open spec fn unpenetrated(parts: Seq<ArmorReducer>, n: nat) -> int
    decreases n,
{
    if n == 0 {
        1
    } else {
        unpenetrated(parts, (n - 1) as nat) * (HUNDRED - parts[n - 1].percent_armor_pen)
    }
}

/// A hundred percent to the power of `n`.
pub open spec fn whole(n: nat) -> int
    decreases n,
{
    if n == 0 {
        1
    } else {
        whole((n - 1) as nat) * HUNDRED
    }
}

/// `parts` with the sources at `i` and `j` in each other's place.
pub open spec fn swapped(parts: Seq<ArmorReducer>, i: int, j: int) -> Seq<ArmorReducer> {
    parts.update(i, parts[j]).update(j, parts[i])
}

/// Where no sum on the way leaves the 64-bit range, the summed fields of
/// sources added one after another are their exact sums.
pub proof fn lemma_sums_are_exact(parts: Seq<ArmorReducer>, n: nat)
    requires
        n <= parts.len(),
        forall|m: nat| m <= n ==> (#[trigger] summed(parts, m)).fits(),
    ensures
        ArmorReducer::sum_of(parts, n).flat_armor_reduction == summed(
            parts,
            n,
        ).flat_armor_reduction,
        ArmorReducer::sum_of(parts, n).percent_armor_reduction == summed(
            parts,
            n,
        ).percent_armor_reduction,
        ArmorReducer::sum_of(parts, n).flat_armor_pen == summed(parts, n).flat_armor_pen,
        ArmorReducer::sum_of(parts, n).percent_bonus_armor_pen == summed(
            parts,
            n,
        ).percent_bonus_armor_pen,
    decreases n,
{
    if n > 0 {
        lemma_sums_are_exact(parts, (n - 1) as nat);
        assert(summed(parts, n).fits());
    }
}

/// Stacked percent penetration is exact to within one billionth for each
/// source. For sources that each penetrate between 0 and 100 percent, what
/// their stacked penetration leaves of a hundred percent is, in whole
/// billionths, between the exact product of what each leaves less one
/// billionth for each source, and that product.
pub proof fn lemma_stacking_is_near_exact(parts: Seq<ArmorReducer>, n: nat)
    requires
        n <= parts.len(),
        forall|i: int| 0 <= i < n ==> 0 <= (#[trigger] parts[i]).percent_armor_pen <= HUNDRED,
    ensures
        0 <= ArmorReducer::sum_of(parts, n).percent_armor_pen <= HUNDRED,
        0 <= unpenetrated(parts, n),
        0 < whole(n),
        (HUNDRED - ArmorReducer::sum_of(parts, n).percent_armor_pen) * whole(n) <= HUNDRED
            * unpenetrated(parts, n),
        HUNDRED * unpenetrated(parts, n) <= (HUNDRED - ArmorReducer::sum_of(
            parts,
            n,
        ).percent_armor_pen + n) * whole(n),
    decreases n,
{
    let h = HUNDRED as int;
    if n > 0 {
        lemma_stacking_is_near_exact(parts, (n - 1) as nat);
        let before = ArmorReducer::sum_of(parts, (n - 1) as nat).percent_armor_pen as int;
        let s = parts[n - 1].percent_armor_pen as int;
        lemma_stacked_remainder(before, s);
        let after = ArmorReducer::sum_of(parts, n).percent_armor_pen as int;
        assert(after == stacked(before, s));
        let r = h - before;
        let r2 = h - after;
        let f = h - s;
        let x = whole((n - 1) as nat);
        let y = unpenetrated(parts, (n - 1) as nat);
        let k = (n - 1) as int;
        assert(whole(n) == x * h);
        assert(unpenetrated(parts, n) == y * f);
        assert(0 <= y * f && 0 < x * h) by (nonlinear_arith)
            requires
                0 <= y,
                0 <= f,
                0 < x,
                0 < h,
        ;
        assert(r2 * (x * h) <= h * (y * f)) by (nonlinear_arith)
            requires
                r2 * h <= r * f,
                r * x <= h * y,
                0 <= f,
                0 < x,
        ;
        assert(h * (y * f) <= (r2 + k + 1) * (x * h)) by (nonlinear_arith)
            requires
                r * f < (r2 + 1) * h,
                h * y <= (r + k) * x,
                0 <= f <= h,
                0 < x,
                0 <= k,
                0 <= r,
        ;
    }
}

/// The exact sums over the first `n` sources after the source at `i` was
/// exchanged for `source`: the sums before, less the fields of the one,
/// plus the fields of the other.
pub proof fn lemma_sums_after_exchange(parts: Seq<ArmorReducer>, n: nat, i: int, source: ArmorReducer)
    requires
        0 <= i < parts.len(),
        n <= parts.len(),
    ensures
        i >= n ==> summed(parts.update(i, source), n) == summed(parts, n),
        i < n ==> summed(parts.update(i, source), n) == (ReducerSums {
            flat_armor_reduction: summed(parts, n).flat_armor_reduction
                - parts[i].flat_armor_reduction + source.flat_armor_reduction,
            percent_armor_reduction: summed(parts, n).percent_armor_reduction
                - parts[i].percent_armor_reduction + source.percent_armor_reduction,
            flat_armor_pen: summed(parts, n).flat_armor_pen - parts[i].flat_armor_pen
                + source.flat_armor_pen,
            percent_bonus_armor_pen: summed(parts, n).percent_bonus_armor_pen
                - parts[i].percent_bonus_armor_pen + source.percent_bonus_armor_pen,
        }),
    decreases n,
{
    if n > 0 {
        lemma_sums_after_exchange(parts, (n - 1) as nat, i, source);
    }
}

/// The product of what the first `n` sources leave unpenetrated, without
/// the source at `i`.
pub open spec fn unpenetrated_by_others(parts: Seq<ArmorReducer>, n: nat, i: int) -> int
    decreases n,
{
    if n == 0 {
        1
    } else if n - 1 == i {
        unpenetrated_by_others(parts, (n - 1) as nat, i)
    } else {
        unpenetrated_by_others(parts, (n - 1) as nat, i) * (HUNDRED - parts[n
            - 1].percent_armor_pen)
    }
}

/// What all leave unpenetrated is what the others leave, times what the
/// source at `i` leaves; and the others leave the same whatever stands at
/// `i`.
pub proof fn lemma_unpenetrated_by_others(parts: Seq<ArmorReducer>, n: nat, i: int, source: ArmorReducer)
    requires
        0 <= i < parts.len(),
        n <= parts.len(),
    ensures
        unpenetrated_by_others(parts.update(i, source), n, i) == unpenetrated_by_others(parts, n, i),
        i < n ==> unpenetrated(parts, n) == unpenetrated_by_others(parts, n, i) * (HUNDRED
            - parts[i].percent_armor_pen),
        i >= n ==> unpenetrated(parts, n) == unpenetrated_by_others(parts, n, i),
    decreases n,
{
    if n > 0 {
        lemma_unpenetrated_by_others(parts, (n - 1) as nat, i, source);
        let others = unpenetrated_by_others(parts, (n - 1) as nat, i);
        let last = HUNDRED - parts[n - 1].percent_armor_pen;
        let this = HUNDRED - parts[i].percent_armor_pen;
        if i < n - 1 {
            assert((others * this) * last == (others * last) * this) by (nonlinear_arith);
        }
    }
}

/// The order of the sources does not matter to what they add up to
/// exactly: with two sources in each other's place, the exact sums and the
/// exact product of what is left unpenetrated are the same.
pub proof fn lemma_order_does_not_matter(parts: Seq<ArmorReducer>, i: int, j: int, n: nat)
    requires
        0 <= i < j < n <= parts.len(),
    ensures
        summed(swapped(parts, i, j), n) == summed(parts, n),
        unpenetrated(swapped(parts, i, j), n) == unpenetrated(parts, n),
{
    let half = parts.update(i, parts[j]);
    let both = swapped(parts, i, j);
    lemma_sums_after_exchange(parts, n, i, parts[j]);
    lemma_sums_after_exchange(half, n, j, parts[i]);
    // the product: take the source at `j` out, then the one at `i`
    let one = HUNDRED - parts[i].percent_armor_pen;
    let two = HUNDRED - parts[j].percent_armor_pen;
    let core = unpenetrated_without_two(parts, n, i, j);
    lemma_unpenetrated_by_others(parts, n, j, parts[i]);
    lemma_product_without_two(parts, n, i, j);
    assert(unpenetrated(parts, n) == (core * one) * two);
    lemma_unpenetrated_by_others(both, n, j, parts[i]);
    lemma_product_without_two(both, n, i, j);
    lemma_without_two_ignores(parts, n, i, j, i, parts[j]);
    lemma_without_two_ignores(half, n, i, j, j, parts[i]);
    assert(unpenetrated(both, n) == (core * two) * one);
    assert((core * one) * two == (core * two) * one) by (nonlinear_arith);
}

/// The product of what the first `n` sources leave unpenetrated, without
/// the sources at `i` and `j`.
pub open spec fn unpenetrated_without_two(parts: Seq<ArmorReducer>, n: nat, i: int, j: int) -> int
    decreases n,
{
    if n == 0 {
        1
    } else if n - 1 == i || n - 1 == j {
        unpenetrated_without_two(parts, (n - 1) as nat, i, j)
    } else {
        unpenetrated_without_two(parts, (n - 1) as nat, i, j) * (HUNDRED - parts[n
            - 1].percent_armor_pen)
    }
}

/// What the others but `j` leave is what the others but `i` and `j` leave,
/// times what the source at `i` leaves.
pub proof fn lemma_product_without_two(parts: Seq<ArmorReducer>, n: nat, i: int, j: int)
    requires
        0 <= i < j < parts.len(),
        n <= parts.len(),
    ensures
        i < n ==> unpenetrated_by_others(parts, n, j) == unpenetrated_without_two(parts, n, i, j)
            * (HUNDRED - parts[i].percent_armor_pen),
        i >= n ==> unpenetrated_by_others(parts, n, j) == unpenetrated_without_two(parts, n, i, j),
    decreases n,
{
    if n > 0 {
        lemma_product_without_two(parts, (n - 1) as nat, i, j);
        let core = unpenetrated_without_two(parts, (n - 1) as nat, i, j);
        let last = HUNDRED - parts[n - 1].percent_armor_pen;
        let this = HUNDRED - parts[i].percent_armor_pen;
        if i < n - 1 && n - 1 != j {
            assert((core * this) * last == (core * last) * this) by (nonlinear_arith);
        }
    }
}

/// What the others but `i` and `j` leave does not depend on what stands at
/// `i` or at `j`.
pub proof fn lemma_without_two_ignores(
    parts: Seq<ArmorReducer>,
    n: nat,
    i: int,
    j: int,
    at: int,
    source: ArmorReducer,
)
    requires
        0 <= i < j < parts.len(),
        n <= parts.len(),
        at == i || at == j,
    ensures
        unpenetrated_without_two(parts.update(at, source), n, i, j) == unpenetrated_without_two(
            parts,
            n,
            i,
            j,
        ),
    decreases n,
{
    if n > 0 {
        lemma_without_two_ignores(parts, (n - 1) as nat, i, j, at, source);
    }
}

} // verus!
