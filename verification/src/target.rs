//! What an attack sees of its target, and the timed effects a combatant
//! carries.
use crate::armor_reducer::ArmorReducer;
use crate::champions::fight::all_distinct;
use crate::champions::fight::counter_for;
use crate::champions::fight::distinct;
use crate::champions::fight::same_places;
use crate::champions::fight::upsert;
use crate::champions::champion::AbilityName;
use crate::champions::champion::Arena;
use crate::champions::champion::CastingData;
use crate::champions::champion::Champion;
use crate::champions::champion::ChampionHandle;
use crate::champions::fight::Fight;
use crate::champions::fight::MAX_NESTING;
use crate::champions::laws::lemma_upsert_keeps_order;
use crate::fixed::clamp;
use crate::fixed::sat_add;
use crate::fixed::Fixed;
use crate::formulas::grown;
use crate::formulas::stat_at_level;
use crate::load_champion::ChampionStats;
use vstd::prelude::*;
use vstd::std_specs::cmp::PartialEqSpecImpl;
use vstd::std_specs::convert::FromSpecImpl;

verus! {

/// A combatant that can be attacked.
pub trait Target {
    /// The defensive figures of the combatant as they stand now.
    fn get_vitality_data(&self) -> VitalityData;
}

/// Armor, split into base and bonus, magic resistance and health.
#[derive(Clone, Copy, Debug)]
pub struct VitalityData {
    pub base_armor: Fixed,
    pub bonus_armor: Fixed,
    pub magic_resist: Fixed,
    pub max_health: Fixed,
    pub current_health: Fixed,
}

impl VitalityData {
    /// A target without armor, resistance or health.
    pub open spec fn zero() -> VitalityData {
        VitalityData {
            base_armor: 0,
            bonus_armor: 0,
            magic_resist: 0,
            max_health: 0,
            current_health: 0,
        }
    }

    /// The figures of a champion with `stats` at `level`, at full health and
    /// without bonus armor.
    pub open spec fn of_stats(stats: ChampionStats, level: u8) -> VitalityData {
        let max_health = clamp(grown(stats.health as int, stats.health_per_level as int, level as int));
        VitalityData {
            base_armor: clamp(grown(stats.armor as int, stats.armor_per_level as int, level as int)) as i64,
            bonus_armor: 0,
            magic_resist: clamp(
                grown(stats.magic_resist as int, stats.magic_resist_per_level as int, level as int),
            ) as i64,
            max_health: max_health as i64,
            current_health: max_health as i64,
        }
    }
}

impl Default for VitalityData {
    fn default() -> (r: VitalityData)
        ensures
            r == VitalityData::zero(),
    {
        VitalityData {
            base_armor: 0,
            bonus_armor: 0,
            magic_resist: 0,
            max_health: 0,
            current_health: 0,
        }
    }
}

impl<'a> From<(&'a ChampionStats, u8)> for VitalityData {
    fn from(tuple: (&'a ChampionStats, u8)) -> (r: VitalityData) {
        let (stats, level) = tuple;
        let max_health = stat_at_level(stats.health, stats.health_per_level, level);
        VitalityData {
            base_armor: stat_at_level(stats.armor, stats.armor_per_level, level),
            bonus_armor: 0,
            magic_resist: stat_at_level(stats.magic_resist, stats.magic_resist_per_level, level),
            max_health,
            current_health: max_health,
        }
    }
}

impl<'a> FromSpecImpl<(&'a ChampionStats, u8)> for VitalityData {
    open spec fn obeys_from_spec() -> bool {
        true
    }

    open spec fn from_spec(tuple: (&'a ChampionStats, u8)) -> VitalityData {
        VitalityData::of_stats(*tuple.0, tuple.1)
    }
}

/// The name by which an effect is found again among those of its kind.
#[derive(Clone, Copy, Debug, PartialEq, Eq, Hash, Structural)]
pub enum EffectName {
    /// The stacking hits that end in bonus damage.
    DentingBlowsDamage,
    /// The stacking hits that end in shredded armor.
    DentingBlowsArmor,
    /// The empowered attack that an item grants, by the ability it fires.
    Ability(AbilityName),
    /// Any other effect, by a number of the caller's choosing.
    Other(u64),
}

/// The four kinds of payload, without their contents.
#[derive(Clone, Copy, Debug, PartialEq, Eq, Hash, Structural)]
pub enum EffectKind {
    ThreeHit,
    ArmorReducer,
    EmpowerNextAttack,
    AbilityEffect,
}

/// An ability to execute later, as if `attacker` cast it. The attacker is
/// held by handle and may be gone by then.
#[derive(Clone, Copy, Debug)]
pub struct AbilityEffect {
    pub attacker: ChampionHandle,
    pub name: AbilityName,
    pub data: CastingData,
}

/// An empowered next attack: ready with the ability it fires and the
/// cooldown that follows, or on cooldown.
#[derive(Clone, Copy, Debug)]
pub enum EmpowerState {
    Cooldown,
    Active(AbilityEffect, Fixed),
}

/// What a stack of three hits turns into: an effect named `unique_name`
/// that lasts `ttl` seconds, or an ability executed at once.
#[derive(Debug)]
pub struct ThreeHitApplyInfo {
    pub ttl: Fixed,
    pub unique_name: EffectName,
    pub result: Box<EffectResult>,
}

/// A counter of hits, and what the third hit sets off.
#[derive(Debug)]
pub struct ThreeHit {
    pub hit_count: u8,
    pub on_third_hit: ThreeHitApplyInfo,
}

/// The payload of a timed effect.
#[derive(Debug)]
pub enum EffectResult {
    ThreeHit(ThreeHit),
    ArmorReducer(ArmorReducer),
    EmpowerNextAttack(EmpowerState),
    AbilityEffect(AbilityEffect),
}

/// A timed effect on a combatant. It counts until the clock passes
/// `expiry`.
#[derive(Debug)]
pub struct EffectData {
    pub expiry: Fixed,
    pub unique_name: EffectName,
    pub result: EffectResult,
}

impl EffectResult {
    /// The kind of this payload.
    pub open spec fn kind_of(&self) -> EffectKind {
        match self {
            EffectResult::ThreeHit(_) => EffectKind::ThreeHit,
            EffectResult::ArmorReducer(_) => EffectKind::ArmorReducer,
            EffectResult::EmpowerNextAttack(_) => EffectKind::EmpowerNextAttack,
            EffectResult::AbilityEffect(_) => EffectKind::AbilityEffect,
        }
    }

    /// The kind of this payload.
    pub fn kind(&self) -> (r: EffectKind)
        ensures
            r == self.kind_of(),
    {
        match self {
            EffectResult::ThreeHit(_) => EffectKind::ThreeHit,
            EffectResult::ArmorReducer(_) => EffectKind::ArmorReducer,
            EffectResult::EmpowerNextAttack(_) => EffectKind::EmpowerNextAttack,
            EffectResult::AbilityEffect(_) => EffectKind::AbilityEffect,
        }
    }
}

impl EffectData {
    /// Two effects are the same effect when their names and the kinds of
    /// their payloads agree.
    pub open spec fn same_identity(&self, other: EffectData) -> bool {
        self.unique_name == other.unique_name && self.result.kind_of() == other.result.kind_of()
    }

    /// The effect still counts at time `now`.
    pub open spec fn valid_at(&self, now: Fixed) -> bool {
        self.expiry >= now
    }

    /// Whether the effect still counts at time `now`.
    pub fn is_valid(&self, now: Fixed) -> (r: bool)
        ensures
            r == self.valid_at(now),
    {
        self.expiry >= now
    }
}

impl PartialEq for EffectData {
    fn eq(&self, other: &Self) -> (r: bool) {
        self.unique_name == other.unique_name && self.result.kind() == other.result.kind()
    }
}

impl PartialEqSpecImpl for EffectData {
    open spec fn obeys_eq_spec() -> bool {
        true
    }

    open spec fn eq_spec(&self, other: &Self) -> bool {
        self.same_identity(*other)
    }
}

impl ThreeHit {
    /// [`ThreeHit::upsert_to_champ`] with a limit on how deep the
    /// abilities that it sets off may nest.
    pub(crate) fn upsert_to_champ_within(
        champion: &mut Champion,
        arena: &mut Arena,
        resulting_effect: ThreeHitApplyInfo,
        ttl: Fixed,
        now: Fixed,
        depth: u64,
    )
        ensures
            (Fight { arena: final(arena)@, target: final(champion)@ }) == upsert(
                old(arena)@,
                old(champion)@,
                counter_for(resulting_effect, ttl, now),
                now,
                depth as nat,
            ),
        decreases depth, 2int,
    {
        let three_hit_name = resulting_effect.unique_name;
        let three_hit_effect = ThreeHit { hit_count: 0, on_third_hit: resulting_effect };
        let three_hit_data = EffectData {
            unique_name: three_hit_name,
            expiry: sat_add(now, ttl),
            result: EffectResult::ThreeHit(three_hit_effect),
        };
        champion.upsert_effect_within(arena, three_hit_data, now, depth);
    }

    /// Counts a hit on `champion` toward `resulting_effect`: upserts a
    /// counter under the name of the pending effect, valid for `ttl`
    /// seconds from `now`. The third hit within that time sets the pending
    /// effect off.
    pub fn upsert_to_champ(
        champion: &mut Champion,
        arena: &mut Arena,
        resulting_effect: ThreeHitApplyInfo,
        ttl: Fixed,
        now: Fixed,
    )
        ensures
            (Fight { arena: final(arena)@, target: final(champion)@ }) == upsert(
                old(arena)@,
                old(champion)@,
                counter_for(resulting_effect, ttl, now),
                now,
                MAX_NESTING as nat,
            ),
            same_places(old(arena)@, final(arena)@),
            distinct(old(champion)@.effects) ==> distinct(final(champion)@.effects),
            all_distinct(old(arena)@) ==> all_distinct(final(arena)@),
    {
        proof {
            lemma_upsert_keeps_order(
                old(arena)@,
                old(champion)@,
                counter_for(resulting_effect, ttl, now),
                now,
                MAX_NESTING as nat,
            );
        }
        ThreeHit::upsert_to_champ_within(champion, arena, resulting_effect, ttl, now, MAX_NESTING)
    }
}

} // verus!
