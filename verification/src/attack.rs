//! Basic attacks: damage, critical strikes, attack speed.
use crate::armor_reducer::ArmorReducer;
use crate::fixed::clamp;
use crate::fixed::mul_div;
use crate::fixed::percent_on;
use crate::fixed::put_percent_on;
use crate::fixed::sat_add;
use crate::fixed::scale;
use crate::fixed::Fixed;
use crate::fixed::UNIT;
use crate::formulas::grown;
use crate::formulas::resist_damage;
use crate::formulas::resisted;
use crate::formulas::stat_at_level;
use crate::load_champion::ChampionStats;
use crate::target::VitalityData;
use vstd::prelude::*;
use vstd::std_specs::convert::FromSpecImpl;

verus! {

/// The stored value of `1.75`: what a critical strike multiplies damage by.
pub const CRIT_MULTIPLIER: i64 = 1_750_000_000;

/// The stored value of `0.75`: what a critical strike adds to damage.
pub const CRIT_BONUS: i64 = 750_000_000;

/// How critical strikes enter a damage figure.
#[derive(Clone, Copy, Debug, PartialEq, Eq, Structural)]
pub enum CritCalculation {
    /// The attack is a critical strike.
    DidCrit,
    /// The attack is no critical strike.
    NoCrit,
    /// The expected value over the critical strike chance.
    AverageOutcome,
}

/// Critical strike chance, as a fraction of one, and critical damage beyond
/// the usual.
#[derive(Clone, Copy, Debug)]
pub struct CritAdjuster {
    pub critical_strike_chance: Fixed,
    pub bonus_critical_damage: Fixed,
}

impl CritAdjuster {
    /// The factor on damage: one without a critical strike,
    /// `1.75 + bonus` with one, `1 + chance * (0.75 + bonus)` on average.
    pub open spec fn multiplier(&self, crit_calc: CritCalculation) -> int {
        match crit_calc {
            CritCalculation::NoCrit => UNIT as int,
            CritCalculation::DidCrit => clamp(CRIT_MULTIPLIER + self.bonus_critical_damage),
            CritCalculation::AverageOutcome => clamp(
                UNIT + scale(
                    self.critical_strike_chance as int,
                    clamp(CRIT_BONUS + self.bonus_critical_damage),
                    UNIT as int,
                ),
            ),
        }
    }

    /// The factor that critical strikes put on damage.
    pub fn get_multipler(&self, crit_calc: &CritCalculation) -> (r: Fixed)
        ensures
            r == self.multiplier(*crit_calc),
    {
        match crit_calc {
            CritCalculation::NoCrit => UNIT,
            CritCalculation::DidCrit => sat_add(CRIT_MULTIPLIER, self.bonus_critical_damage),
            CritCalculation::AverageOutcome => sat_add(
                UNIT,
                mul_div(
                    self.critical_strike_chance,
                    sat_add(CRIT_BONUS, self.bonus_critical_damage),
                    UNIT,
                ),
            ),
        }
    }
}

/// Critical strike figures held by reference, as a plain value.
pub open spec fn crit_by_value(crit_adjuster: Option<(&CritAdjuster, CritCalculation)>) -> Option<
    (CritAdjuster, CritCalculation),
> {
    match crit_adjuster {
        Some((adjuster, crit_calc)) => Some((*adjuster, crit_calc)),
        None => None,
    }
}

/// Attack damage, split into base and bonus.
#[derive(Clone, Copy, Debug)]
pub struct BasicAttack {
    pub base_attack_damage: Fixed,
    pub bonus_attack_damage: Fixed,
}

/// Attacks per second at level 1, and the bonus in percent.
#[derive(Clone, Copy, Debug)]
pub struct AttackSpeed {
    pub base: Fixed,
    pub bonus: Fixed,
}

impl AttackSpeed {
    /// `base * (1 + bonus / 100)`.
    pub open spec fn attacks_per_second(&self) -> int {
        clamp(percent_on(self.base as int, self.bonus as int))
    }

    /// The attack speed of a champion with `stats` at `level`.
    pub open spec fn of_stats(stats: ChampionStats, level: u8) -> AttackSpeed {
        AttackSpeed {
            base: stats.attack_speed,
            bonus: clamp(
                clamp(grown(0, stats.attack_speed_per_level as int, level as int))
                    + stats.bonus_attack_speed,
            ) as i64,
        }
    }

    /// Attacks per second with the bonus counted in.
    pub fn get_attacks_per_second(&self) -> (r: Fixed)
        ensures
            r == self.attacks_per_second(),
    {
        put_percent_on(self.base, self.bonus)
    }
}

impl BasicAttack {
    /// Base plus bonus attack damage.
    pub open spec fn total_attack_damage(&self) -> int {
        clamp(self.base_attack_damage + self.bonus_attack_damage)
    }

    /// The armor an attack goes through: the reducer's effective armor, or
    /// all of base and bonus armor without a reducer.
    pub open spec fn armor_against(target: VitalityData, armor_reducer: Option<&ArmorReducer>) -> int {
        match armor_reducer {
            Some(reducer) => reducer.effective_armor(target),
            None => clamp(target.base_armor + target.bonus_armor),
        }
    }

    /// The factor of critical strikes, one where they are left out.
    pub open spec fn crit_factor(crit_adjuster: Option<(CritAdjuster, CritCalculation)>) -> int {
        match crit_adjuster {
            Some((adjuster, crit_calc)) => adjuster.multiplier(crit_calc),
            None => UNIT as int,
        }
    }

    /// Damage of one attack on `target`: total attack damage, resisted by the
    /// armor it goes through, times the factor of critical strikes.
    pub open spec fn damage_to_target(
        &self,
        target: VitalityData,
        crit_adjuster: Option<(CritAdjuster, CritCalculation)>,
        armor_reducer: Option<&ArmorReducer>,
    ) -> int {
        scale(
            clamp(resisted(self.total_attack_damage(), Self::armor_against(target, armor_reducer))),
            Self::crit_factor(crit_adjuster),
            UNIT as int,
        )
    }

    /// The attack of a champion with `stats` at `level`: the attack damage
    /// grown to the level, and the bonus attack damage of `stats`.
    pub open spec fn of_stats(stats: ChampionStats, level: u8) -> BasicAttack {
        BasicAttack {
            base_attack_damage: clamp(
                grown(
                    stats.base_attack_damage as int,
                    stats.attack_damage_per_level as int,
                    level as int,
                ),
            ) as i64,
            bonus_attack_damage: stats.bonus_attack_damage,
        }
    }

    /// Base plus bonus attack damage.
    pub fn get_total_attack_damage(&self) -> (r: Fixed)
        ensures
            r == self.total_attack_damage(),
    {
        sat_add(self.base_attack_damage, self.bonus_attack_damage)
    }

    /// Damage of one attack on `target`.
    pub fn get_damage_to_target(
        &self,
        target: &VitalityData,
        crit_adjuster: &Option<(&CritAdjuster, CritCalculation)>,
        armor_reducer: Option<&ArmorReducer>,
    ) -> (r: Fixed)
        ensures
            r == self.damage_to_target(*target, crit_by_value(*crit_adjuster), armor_reducer),
    {
        let damage = self.get_total_attack_damage();
        let effective_armor = match armor_reducer {
            Some(reducer) => reducer.get_effective_armor(target),
            None => sat_add(target.base_armor, target.bonus_armor),
        };
        let adjusted_crit_multipier = match crit_adjuster {
            Some((adjuster, crit_calc)) => adjuster.get_multipler(crit_calc),
            None => UNIT,
        };
        mul_div(resist_damage(damage, effective_armor), adjusted_crit_multipier, UNIT)
    }

    /// An attack with the given base and bonus damage.
    pub fn new(base_attack_damage: Fixed, bonus_attack_damage: Fixed) -> (r: BasicAttack)
        ensures
            r == (BasicAttack { base_attack_damage, bonus_attack_damage }),
    {
        BasicAttack { base_attack_damage, bonus_attack_damage }
    }
}

impl Default for BasicAttack {
    fn default() -> (r: BasicAttack)
        ensures
            r == (BasicAttack { base_attack_damage: 0, bonus_attack_damage: 0 }),
    {
        BasicAttack { base_attack_damage: 0, bonus_attack_damage: 0 }
    }
}

impl Default for AttackSpeed {
    fn default() -> (r: AttackSpeed)
        ensures
            r == (AttackSpeed { base: 0, bonus: 0 }),
    {
        AttackSpeed { base: 0, bonus: 0 }
    }
}

impl<'a> From<(&'a ChampionStats, u8)> for BasicAttack {
    fn from(tuple: (&'a ChampionStats, u8)) -> (r: BasicAttack) {
        let (stats, level) = tuple;
        let attack_damage = stat_at_level(
            stats.base_attack_damage,
            stats.attack_damage_per_level,
            level,
        );
        BasicAttack { base_attack_damage: attack_damage, bonus_attack_damage: stats.bonus_attack_damage }
    }
}

impl<'a> FromSpecImpl<(&'a ChampionStats, u8)> for BasicAttack {
    open spec fn obeys_from_spec() -> bool {
        true
    }

    open spec fn from_spec(tuple: (&'a ChampionStats, u8)) -> BasicAttack {
        BasicAttack::of_stats(*tuple.0, tuple.1)
    }
}

impl<'a> From<(&'a ChampionStats, u8)> for AttackSpeed {
    fn from(tuple: (&'a ChampionStats, u8)) -> (r: AttackSpeed) {
        let (stats, level) = tuple;
        let bonus_speed = sat_add(
            stat_at_level(0, stats.attack_speed_per_level, level),
            stats.bonus_attack_speed,
        );
        AttackSpeed { base: stats.attack_speed, bonus: bonus_speed }
    }
}

impl<'a> FromSpecImpl<(&'a ChampionStats, u8)> for AttackSpeed {
    open spec fn obeys_from_spec() -> bool {
        true
    }

    open spec fn from_spec(tuple: (&'a ChampionStats, u8)) -> AttackSpeed {
        AttackSpeed::of_stats(*tuple.0, tuple.1)
    }
}

/// Damage per second of basic attacks on `target`, critical strikes counted
/// at their expected value: the damage of one attack times the attacks per
/// second.
pub open spec fn dps(
    attack_speed: AttackSpeed,
    attack: BasicAttack,
    target: VitalityData,
    armor_reducer: Option<&ArmorReducer>,
    crit_adjuster: Option<&CritAdjuster>,
) -> int {
    let crit = match crit_adjuster {
        Some(adjuster) => Some((*adjuster, CritCalculation::AverageOutcome)),
        None => None,
    };
    scale(
        attack.damage_to_target(target, crit, armor_reducer),
        attack_speed.attacks_per_second(),
        UNIT as int,
    )
}

/// Damage per second of basic attacks on `target`.
pub fn get_dps(
    attack_speed: &AttackSpeed,
    attack: &BasicAttack,
    target: &VitalityData,
    armor_reducer: Option<&ArmorReducer>,
    crit_adjuster: Option<&CritAdjuster>,
) -> (r: Fixed)
    ensures
        r == dps(*attack_speed, *attack, *target, armor_reducer, crit_adjuster),
{
    let crit_tuple = match crit_adjuster {
        Some(adjuster) => Some((adjuster, CritCalculation::AverageOutcome)),
        None => None,
    };
    let damage = attack.get_damage_to_target(target, &crit_tuple, armor_reducer);
    mul_div(damage, attack_speed.get_attacks_per_second(), UNIT)
}

} // verus!
