//! The champion Vi: her damage tables and her abilities.
use crate::attack::BasicAttack;
use crate::attack::CritAdjuster;
use crate::attack::CritCalculation;
use crate::armor_reducer::ArmorReducer;
use crate::champions::fight::all_distinct;
use crate::champions::fight::dented;
use crate::champions::fight::distinct;
use crate::champions::fight::same_places;
use crate::champions::laws::lemma_dented_keeps_order;
use crate::champions::champion::Ability;
use crate::champions::champion::AbilityName;
use crate::champions::champion::Arena;
use crate::champions::champion::CastingData;
use crate::champions::champion::Champion;
use crate::champions::champion::ChampionHandle;
use crate::champions::fight::Fight;
use crate::champions::fight::DENTING_BLOWS_SECONDS;
use crate::champions::fight::DENTING_BLOWS_SHRED;
use crate::champions::champion::NamedClosures;
use crate::champions::fight::MAX_NESTING;
use crate::target::AbilityEffect;
use crate::target::EffectName;
use crate::target::EffectResult;
use crate::target::ThreeHit;
use crate::target::ThreeHitApplyInfo;
use crate::fixed::clamp;
use crate::fixed::mul_div;
use crate::fixed::sat_add;
use crate::fixed::scale;
use crate::fixed::Fixed;
use crate::fixed::HUNDRED;
use crate::fixed::UNIT;
use crate::target::VitalityData;
use vstd::prelude::*;

verus! {

/// Damage of an ability by rank, and how it scales. The ratios are
/// percentages.
#[derive(Clone, Copy, Debug)]
pub struct AbiltyDamageInfo {
    pub base_damages: [Fixed; 5],
    pub target_max_health_ratio: [Fixed; 5],
    pub ad_ratio: Fixed,
    pub bonus_ad_ratio: Fixed,
}

impl AbiltyDamageInfo {
    /// Base damage at `rank`, plus `ad_ratio` percent of all attack damage,
    /// plus `bonus_ad_ratio` percent of bonus attack damage.
    pub open spec fn damage_amount(&self, rank: u8, base: Fixed, bonus: Fixed) -> int {
        clamp(
            clamp(
                self.base_damages[rank as int] + scale(
                    self.ad_ratio as int,
                    clamp(base + bonus),
                    HUNDRED as int,
                ),
            ) + scale(self.bonus_ad_ratio as int, bonus as int, HUNDRED as int),
        )
    }

    /// A table without damage.
    pub open spec fn zero() -> AbiltyDamageInfo {
        AbiltyDamageInfo {
            base_damages: [0, 0, 0, 0, 0],
            target_max_health_ratio: [0, 0, 0, 0, 0],
            ad_ratio: 0,
            bonus_ad_ratio: 0,
        }
    }

    /// Raw damage at `rank` for an attacker with `base` and `bonus` attack
    /// damage.
    pub fn to_damage_amount(&self, rank: u8, base: Fixed, bonus: Fixed) -> (r: Fixed)
        requires
            rank < 5,
        ensures
            r == self.damage_amount(rank, base, bonus),
    {
        let by_total = mul_div(self.ad_ratio, sat_add(base, bonus), HUNDRED);
        let by_bonus = mul_div(self.bonus_ad_ratio, bonus, HUNDRED);
        sat_add(sat_add(self.base_damages[rank as usize], by_total), by_bonus)
    }
}

impl Default for AbiltyDamageInfo {
    fn default() -> (r: AbiltyDamageInfo)
        ensures
            r == AbiltyDamageInfo::zero(),
    {
        AbiltyDamageInfo {
            base_damages: [0, 0, 0, 0, 0],
            target_max_health_ratio: [0, 0, 0, 0, 0],
            ad_ratio: 0,
            bonus_ad_ratio: 0,
        }
    }
}

/// Vi's four damage tables.
#[derive(Clone, Copy, Debug)]
pub struct Vi {
    pub q_data: AbiltyDamageInfo,
    pub w_data: AbiltyDamageInfo,
    pub e_data: AbiltyDamageInfo,
    pub r_data: AbiltyDamageInfo,
}

/// The stored value of `1.25`: the seconds of charge at which Vi's dash
/// deals its full damage.
pub const Q_MAX_DAMAGE_CHARGE: i64 = 1_250_000_000;

/// Damage of a basic attack with the given attack damage, before the
/// target's armor: critical strikes are counted in, armor is not.
pub open spec fn attack_damage(
    base: Fixed,
    bonus: Fixed,
    crit_info: Option<(CritAdjuster, CritCalculation)>,
) -> Fixed {
    (BasicAttack { base_attack_damage: base, bonus_attack_damage: bonus }).damage_to_target(
        VitalityData::zero(),
        crit_info,
        None,
    ) as i64
}

/// Computes [`attack_damage`].
pub fn raw_attack_damage(
    base: Fixed,
    bonus: Fixed,
    crit_info: &Option<(CritAdjuster, CritCalculation)>,
) -> (r: Fixed)
    ensures
        r == attack_damage(base, bonus, *crit_info),
{
    let attack = BasicAttack::new(base, bonus);
    let target = VitalityData::default();
    match crit_info {
        Some((adjuster, crit_calc)) => attack.get_damage_to_target(
            &target,
            &Some((adjuster, *crit_calc)),
            None,
        ),
        None => attack.get_damage_to_target(&target, &None, None),
    }
}

impl Vi {
    /// The factor of a charge of `charge` seconds: one, plus eight tenths
    /// for each second up to one more.
    pub open spec fn charge_factor(charge: Fixed) -> int {
        let gained = scale(charge as int, 4, 5);
        clamp((if gained < UNIT { gained } else { UNIT as int }) + UNIT)
    }

    /// Raw damage of the dash: the table's damage times the charge factor.
    pub open spec fn q_damage(info: AbiltyDamageInfo, base_ad: Fixed, bonus_ad: Fixed, data: CastingData) -> Fixed {
        scale(
            info.damage_amount(data.rank, base_ad, bonus_ad),
            Self::charge_factor(data.charge),
            UNIT as int,
        ) as i64
    }

    /// Raw damage of the third hit: a percentage of the target's maximum
    /// health, which is the table's ratio plus `bonus_ad_ratio` for each
    /// point of bonus attack damage.
    pub open spec fn w_damage(info: AbiltyDamageInfo, bonus_ad: Fixed, max_health: Fixed, data: CastingData) -> Fixed {
        scale(
            clamp(
                info.target_max_health_ratio[data.rank as int] + scale(
                    info.bonus_ad_ratio as int,
                    bonus_ad as int,
                    UNIT as int,
                ),
            ),
            max_health as int,
            HUNDRED as int,
        ) as i64
    }

    /// Raw damage of the punch: a basic attack with the table's damage.
    pub open spec fn e_damage(
        info: AbiltyDamageInfo,
        base_ad: Fixed,
        bonus_ad: Fixed,
        crit_info: Option<(CritAdjuster, CritCalculation)>,
        data: CastingData,
    ) -> Fixed {
        attack_damage(info.damage_amount(data.rank, base_ad, bonus_ad) as i64, 0, crit_info)
    }

    /// Raw damage of the ultimate: the table's damage.
    pub open spec fn r_damage(info: AbiltyDamageInfo, base_ad: Fixed, bonus_ad: Fixed, data: CastingData) -> Fixed {
        info.damage_amount(data.rank, base_ad, bonus_ad) as i64
    }

    /// Computes [`Vi::q_damage`].
    pub fn q_raw(info: &AbiltyDamageInfo, base_ad: Fixed, bonus_ad: Fixed, data: &CastingData) -> (r: Fixed)
        requires
            data.rank < 5,
        ensures
            r == Self::q_damage(*info, base_ad, bonus_ad, *data),
    {
        let gained = mul_div(data.charge, 4, 5);
        let percent_damage = sat_add(if gained < UNIT { gained } else { UNIT }, UNIT);
        mul_div(info.to_damage_amount(data.rank, base_ad, bonus_ad), percent_damage, UNIT)
    }

    /// Computes [`Vi::w_damage`].
    pub fn w_raw(info: &AbiltyDamageInfo, bonus_ad: Fixed, max_health: Fixed, data: &CastingData) -> (r: Fixed)
        requires
            data.rank < 5,
        ensures
            r == Self::w_damage(*info, bonus_ad, max_health, *data),
    {
        let percent_health_dmg = sat_add(
            info.target_max_health_ratio[data.rank as usize],
            mul_div(info.bonus_ad_ratio, bonus_ad, UNIT),
        );
        mul_div(percent_health_dmg, max_health, HUNDRED)
    }

    /// Computes [`Vi::e_damage`].
    pub fn e_raw(
        info: &AbiltyDamageInfo,
        base_ad: Fixed,
        bonus_ad: Fixed,
        crit_info: &Option<(CritAdjuster, CritCalculation)>,
        data: &CastingData,
    ) -> (r: Fixed)
        requires
            data.rank < 5,
        ensures
            r == Self::e_damage(*info, base_ad, bonus_ad, *crit_info, *data),
    {
        raw_attack_damage(info.to_damage_amount(data.rank, base_ad, bonus_ad), 0, crit_info)
    }

    /// Computes [`Vi::r_damage`].
    pub fn r_raw(info: &AbiltyDamageInfo, base_ad: Fixed, bonus_ad: Fixed, data: &CastingData) -> (r: Fixed)
        requires
            data.rank < 5,
        ensures
            r == Self::r_damage(*info, base_ad, bonus_ad, *data),
    {
        info.to_damage_amount(data.rank, base_ad, bonus_ad)
    }
}

impl Vi {
    /// [`Vi::apply_w_effect`] with a limit on how deep the abilities that
    /// it sets off may nest.
    pub(crate) fn apply_w_effect_within(
        target: &mut Champion,
        arena: &mut Arena,
        attacker: ChampionHandle,
        now: Fixed,
        depth: u64,
    )
        ensures
            (Fight { arena: final(arena)@, target: final(target)@ }) == dented(
                old(arena)@,
                old(target)@,
                attacker,
                now,
                depth as nat,
            ),
        decreases depth, 3int,
    {
        let rank = match arena.get(attacker) {
            Some(champion) => champion.ranks[1],
            None => {
                return ;
            },
        };
        ThreeHit::upsert_to_champ_within(
            target,
            arena,
            ThreeHitApplyInfo {
                unique_name: EffectName::DentingBlowsDamage,
                result: Box::new(
                    EffectResult::AbilityEffect(
                        AbilityEffect {
                            attacker,
                            name: AbilityName::W,
                            data: CastingData { charge: 0, rank },
                        },
                    ),
                ),
                ttl: 0,
            },
            DENTING_BLOWS_SECONDS,
            now,
            depth,
        );
        ThreeHit::upsert_to_champ_within(
            target,
            arena,
            ThreeHitApplyInfo {
                unique_name: EffectName::DentingBlowsArmor,
                result: Box::new(
                    EffectResult::ArmorReducer(
                        ArmorReducer {
                            flat_armor_reduction: 0,
                            percent_armor_reduction: DENTING_BLOWS_SHRED,
                            flat_armor_pen: 0,
                            percent_armor_pen: 0,
                            percent_bonus_armor_pen: 0,
                        },
                    ),
                ),
                ttl: DENTING_BLOWS_SECONDS,
            },
            DENTING_BLOWS_SECONDS,
            now,
            depth,
        );
    }

    /// Counts one of Vi's hits on `target`: upserts the counter that ends
    /// in her third-hit damage, then the one that ends in a fifth less
    /// armor for four seconds. Nothing happens where the attacker is gone.
    pub fn apply_w_effect(target: &mut Champion, arena: &mut Arena, attacker: ChampionHandle, now: Fixed)
        ensures
            (Fight { arena: final(arena)@, target: final(target)@ }) == dented(
                old(arena)@,
                old(target)@,
                attacker,
                now,
                MAX_NESTING as nat,
            ),
            same_places(old(arena)@, final(arena)@),
            distinct(old(target)@.effects) ==> distinct(final(target)@.effects),
            all_distinct(old(arena)@) ==> all_distinct(final(arena)@),
    {
        proof {
            lemma_dented_keeps_order(old(arena)@, old(target)@, attacker, now, MAX_NESTING as nat);
        }
        Vi::apply_w_effect_within(target, arena, attacker, now, MAX_NESTING)
    }
}

impl Vi {
    pub const NAME: &'static str = "Vi";

    /// Vi's damage tables. The third hit gains one percent of the target's
    /// maximum health for every 35 bonus attack damage.
    pub open spec fn tables() -> Vi {
        Vi {
            w_data: AbiltyDamageInfo {
                bonus_ad_ratio: 28_571_428,
                target_max_health_ratio: [
                    4_000_000_000,
                    5_500_000_000,
                    7_000_000_000,
                    8_500_000_000,
                    10_000_000_000,
                ],
                ..AbiltyDamageInfo::zero()
            },
            e_data: AbiltyDamageInfo {
                base_damages: [0, 15_000_000_000, 30_000_000_000, 45_000_000_000, 60_000_000_000],
                ad_ratio: 120_000_000_000,
                ..AbiltyDamageInfo::zero()
            },
            r_data: AbiltyDamageInfo {
                base_damages: [150_000_000_000, 325_000_000_000, 350_000_000_000, 0, 0],
                bonus_ad_ratio: 110_000_000_000,
                ..AbiltyDamageInfo::zero()
            },
            q_data: AbiltyDamageInfo {
                base_damages: [
                    45_000_000_000,
                    70_000_000_000,
                    95_000_000_000,
                    120_000_000_000,
                    145_000_000_000,
                ],
                bonus_ad_ratio: 80_000_000_000,
                ..AbiltyDamageInfo::zero()
            },
        }
    }

    /// Vi's abilities by name, for the given tables.
    pub open spec fn abilities(&self) -> Seq<(AbilityName, Ability)> {
        seq![
            (AbilityName::Q, Ability::ViQ(self.q_data)),
            (AbilityName::W, Ability::ViW(self.w_data)),
            (AbilityName::E, Ability::ViE(self.e_data)),
            (AbilityName::R, Ability::ViR(self.r_data)),
            (AbilityName::AUTO, Ability::ViAutoAttack),
        ]
    }

    /// The combination around the ultimate, at full charge: dash, attack,
    /// punch, ultimate, attack, punch.
    pub open spec fn combo(ranks: [u8; 4]) -> Seq<(AbilityName, CastingData)> {
        seq![
            (AbilityName::Q, CastingData { rank: ranks[0], charge: Q_MAX_DAMAGE_CHARGE }),
            (AbilityName::AUTO, CastingData { rank: 0, charge: 0 }),
            (AbilityName::E, CastingData { rank: ranks[2], charge: Q_MAX_DAMAGE_CHARGE }),
            (AbilityName::R, CastingData { rank: ranks[1], charge: Q_MAX_DAMAGE_CHARGE }),
            (AbilityName::AUTO, CastingData { rank: 0, charge: 0 }),
            (AbilityName::E, CastingData { rank: ranks[2], charge: Q_MAX_DAMAGE_CHARGE }),
        ]
    }

    /// Vi with her damage tables.
    pub fn new() -> (r: Vi)
        ensures
            r == Vi::tables(),
    {
        Vi {
            w_data: AbiltyDamageInfo {
                base_damages: [0, 0, 0, 0, 0],
                target_max_health_ratio: [
                    4_000_000_000,
                    5_500_000_000,
                    7_000_000_000,
                    8_500_000_000,
                    10_000_000_000,
                ],
                ad_ratio: 0,
                bonus_ad_ratio: 28_571_428,
            },
            e_data: AbiltyDamageInfo {
                base_damages: [0, 15_000_000_000, 30_000_000_000, 45_000_000_000, 60_000_000_000],
                target_max_health_ratio: [0, 0, 0, 0, 0],
                ad_ratio: 120_000_000_000,
                bonus_ad_ratio: 0,
            },
            r_data: AbiltyDamageInfo {
                base_damages: [150_000_000_000, 325_000_000_000, 350_000_000_000, 0, 0],
                target_max_health_ratio: [0, 0, 0, 0, 0],
                ad_ratio: 0,
                bonus_ad_ratio: 110_000_000_000,
            },
            q_data: AbiltyDamageInfo {
                base_damages: [
                    45_000_000_000,
                    70_000_000_000,
                    95_000_000_000,
                    120_000_000_000,
                    145_000_000_000,
                ],
                target_max_health_ratio: [0, 0, 0, 0, 0],
                ad_ratio: 0,
                bonus_ad_ratio: 80_000_000_000,
            },
        }
    }

    /// The table of Vi's abilities by name.
    pub fn get_name_closures(&mut self) -> (r: NamedClosures)
        ensures
            *final(self) == *old(self),
            r.data@ == old(self).abilities(),
    {
        let mut map: Vec<(AbilityName, Ability)> = Vec::new();
        map.push((AbilityName::Q, Vi::ability_q(self.q_data)));
        map.push((AbilityName::W, Vi::ability_w(self.w_data)));
        map.push((AbilityName::E, Vi::ability_e(self.e_data)));
        map.push((AbilityName::R, Vi::ability_r(self.r_data)));
        map.push((AbilityName::AUTO, Vi::auto_attack()));
        assert(map@ =~= self.abilities());
        NamedClosures { data: map }
    }

    /// The dash: damage by table and charge, and one hit toward the third.
    pub fn ability_q(q_data: AbiltyDamageInfo) -> (r: Ability)
        ensures
            r == Ability::ViQ(q_data),
    {
        Ability::ViQ(q_data)
    }

    /// The damage of the third hit: a share of the target's maximum health.
    pub fn ability_w(w_data: AbiltyDamageInfo) -> (r: Ability)
        ensures
            r == Ability::ViW(w_data),
    {
        Ability::ViW(w_data)
    }

    /// The punch: a basic attack with the table's damage, and one hit
    /// toward the third.
    pub fn ability_e(e_data: AbiltyDamageInfo) -> (r: Ability)
        ensures
            r == Ability::ViE(e_data),
    {
        Ability::ViE(e_data)
    }

    /// The ultimate: damage by table.
    pub fn ability_r(r_data: AbiltyDamageInfo) -> (r: Ability)
        ensures
            r == Ability::ViR(r_data),
    {
        Ability::ViR(r_data)
    }

    /// Vi's basic attack: one hit toward the third.
    pub fn auto_attack() -> (r: Ability)
        ensures
            r == Ability::ViAutoAttack,
    {
        Ability::ViAutoAttack
    }

    /// The combination around the ultimate for the given ranks.
    pub fn ult_combo(ranks: [u8; 4]) -> (r: Vec<(AbilityName, CastingData)>)
        ensures
            r@ == Vi::combo(ranks),
    {
        let mut out: Vec<(AbilityName, CastingData)> = Vec::new();
        out.push((AbilityName::Q, CastingData { rank: ranks[0], charge: Q_MAX_DAMAGE_CHARGE }));
        out.push((AbilityName::AUTO, CastingData::new(0)));
        out.push((AbilityName::E, CastingData { rank: ranks[2], charge: Q_MAX_DAMAGE_CHARGE }));
        out.push((AbilityName::R, CastingData { rank: ranks[1], charge: Q_MAX_DAMAGE_CHARGE }));
        out.push((AbilityName::AUTO, CastingData::new(0)));
        out.push((AbilityName::E, CastingData { rank: ranks[2], charge: Q_MAX_DAMAGE_CHARGE }));
        assert(out@ =~= Vi::combo(ranks));
        out
    }
}

} // verus!
