//! Combatants, their abilities and their timed effects.
use crate::armor_reducer::ArmorReducer;
use crate::attack::BasicAttack;
use crate::attack::CritAdjuster;
use crate::attack::CritCalculation;
use crate::champions::fight::Fight;
use crate::champions::fight::MAX_NESTING;
use crate::champions::fight::all_released;
use crate::champions::fight::all_spent;
use crate::champions::fight::combo_done;
use crate::champions::fight::executed;
use crate::champions::fight::find_same;
use crate::champions::fight::fired;
use crate::champions::fight::granted;
use crate::champions::fight::all_distinct;
use crate::champions::fight::distinct;
use crate::champions::fight::performed;
use crate::champions::fight::same_places;
use crate::champions::fight::set_off;
use crate::champions::fight::set_off_by;
use crate::champions::fight::spent;
use crate::champions::fight::upsert;
use crate::champions::fight::upserted;
use crate::champions::laws::lemma_combo_keeps_order;
use crate::champions::laws::lemma_executed_keeps_order;
use crate::champions::laws::lemma_granted_distinct;
use crate::champions::laws::lemma_spent_distinct;
use crate::champions::laws::lemma_upsert_keeps_order;
use crate::champions::vi::attack_damage;
use crate::champions::vi::raw_attack_damage;
use crate::champions::vi::AbiltyDamageInfo;
use crate::champions::vi::Vi;
use crate::fixed::clamp;
use crate::fixed::sat_add;
use crate::fixed::sat_sub;
use crate::fixed::Fixed;
use crate::formulas::grown;
use crate::formulas::resist_damage;
use crate::formulas::resisted;
use crate::formulas::stat_at_level;
use crate::item_effects::divine_sunderer_damage;
use crate::item_effects::divine_sunderer_raw;
use crate::item_effects::essence_reaver_damage;
use crate::item_effects::essence_reaver_raw;
use crate::item_effects::nightstalker_damage;
use crate::item_effects::nightstalker_raw;
use crate::item_effects::static_ability;
use crate::item_effects::OnHit;
use crate::item_effects::OnHitActivation;
use crate::load_champion::ChampionStats;
use crate::target::AbilityEffect;
use crate::target::EffectData;
use crate::target::EffectResult;
use crate::target::EmpowerState;
use crate::target::ThreeHit;
use crate::target::ThreeHitApplyInfo;
use crate::target::Target;
use crate::target::VitalityData;
use vstd::prelude::*;

verus! {

/// The abilities that can be executed.
#[derive(Clone, Copy, Debug, PartialEq, Eq, Hash, Structural)]
pub enum AbilityName {
    Q,
    W,
    WPassive,
    E,
    R,
    AUTO,
    NIGHTSTALKER,
    SpellbladeSheen,
    SpellbladeEssenceReaver,
    SpellbladeDivineSunderer,
}

impl AbilityName {
    /// The name as text.
    pub open spec fn text(&self) -> Seq<char> {
        match self {
            AbilityName::Q => "Q"@,
            AbilityName::W => "W"@,
            AbilityName::WPassive => "WPassive"@,
            AbilityName::E => "E"@,
            AbilityName::R => "R"@,
            AbilityName::AUTO => "AUTO"@,
            AbilityName::NIGHTSTALKER => "NIGHTSTALKER"@,
            AbilityName::SpellbladeSheen => "SpellbladeSheen"@,
            AbilityName::SpellbladeEssenceReaver => "SpellbladeEssenceReaver"@,
            AbilityName::SpellbladeDivineSunderer => "SpellbladeDivineSunderer"@,
        }
    }

    /// The name as text.
    pub fn to_string(&self) -> (r: String)
        ensures
            r@ == self.text(),
    {
        match self {
            AbilityName::Q => "Q".to_owned(),
            AbilityName::W => "W".to_owned(),
            AbilityName::WPassive => "WPassive".to_owned(),
            AbilityName::E => "E".to_owned(),
            AbilityName::R => "R".to_owned(),
            AbilityName::AUTO => "AUTO".to_owned(),
            AbilityName::NIGHTSTALKER => "NIGHTSTALKER".to_owned(),
            AbilityName::SpellbladeSheen => "SpellbladeSheen".to_owned(),
            AbilityName::SpellbladeEssenceReaver => "SpellbladeEssenceReaver".to_owned(),
            AbilityName::SpellbladeDivineSunderer => "SpellbladeDivineSunderer".to_owned(),
        }
    }
}

/// How an ability is cast: how long it was charged, in seconds, and its
/// rank, counted from zero.
#[derive(Clone, Copy, Debug)]
pub struct CastingData {
    pub charge: Fixed,
    pub rank: u8,
}

impl CastingData {
    /// An uncharged cast at `rank`.
    pub fn new(rank: u8) -> (r: CastingData)
        ensures
            r == (CastingData { charge: 0, rank }),
    {
        CastingData { charge: 0, rank }
    }
}

impl Default for CastingData {
    fn default() -> (r: CastingData)
        ensures
            r == (CastingData { charge: 0, rank: 0 }),
    {
        CastingData { charge: 0, rank: 0 }
    }
}

/// The place of a champion in an [`Arena`]. It stays valid as a value when
/// the champion is gone; looking it up then finds nothing.
#[derive(Clone, Copy, Debug, PartialEq, Eq, Hash, Structural)]
pub struct ChampionHandle {
    pub index: usize,
}

/// What an ability does when it is executed.
#[derive(Clone, Copy, Debug)]
pub enum Ability {
    /// Vi's charged dash, with its damage table.
    ViQ(AbiltyDamageInfo),
    /// The damage of Vi's third hit, with its damage table.
    ViW(AbiltyDamageInfo),
    /// Vi's empowered punch, with its damage table.
    ViE(AbiltyDamageInfo),
    /// Vi's ultimate, with its damage table.
    ViR(AbiltyDamageInfo),
    /// Vi's basic attack, which counts toward her third hit.
    ViAutoAttack,
    /// A basic attack without anything more.
    AutoAttack,
    Nightstalker,
    SpellbladeSheen,
    SpellbladeEssenceReaver,
    SpellbladeDivineSunderer,
}

/// The abilities of one champion by name. Where a name stands more than
/// once, the first entry counts.
#[derive(Debug)]
pub struct NamedClosures {
    pub data: Vec<(AbilityName, Ability)>,
}

/// The first ability under `name` at or after position `from`.
pub open spec fn ability_from(table: Seq<(AbilityName, Ability)>, name: AbilityName, from: int) -> Option<
    Ability,
>
    decreases table.len() - from,
{
    if from < 0 || from >= table.len() {
        None
    } else if table[from].0 == name {
        Some(table[from].1)
    } else {
        ability_from(table, name, from + 1)
    }
}

impl NamedClosures {
    /// Looks `name` up.
    pub fn get(&self, name: &AbilityName) -> (r: Option<Ability>)
        ensures
            r == ability_from(self.data@, *name, 0),
    {
        let mut i: usize = 0;
        while i < self.data.len()
            invariant
                i <= self.data.len(),
                ability_from(self.data@, *name, 0) == ability_from(self.data@, *name, i as int),
            decreases self.data.len() - i,
        {
            if self.data[i].0 == *name {
                return Some(self.data[i].1);
            }
            i += 1;
        }
        None
    }
}

/// A combatant: statistics, level, health, abilities and the timed effects
/// on it.
#[derive(Debug)]
pub struct Champion {
    pub stats: ChampionStats,
    pub level: u8,
    /// Armor before any item, from which base armor grows.
    pub initial_armor: Fixed,
    pub current_health: Fixed,
    pub abilities: NamedClosures,
    pub crit_info: Option<(CritAdjuster, CritCalculation)>,
    /// The timed effects, oldest first. Use [`Champion::upsert_effect`] to
    /// add one.
    pub effects: Vec<EffectData>,
    pub on_hit_item_effects: Vec<OnHit>,
    pub ranks: [u8; 4],
}

/// A [`Champion`] as a mathematical value.
pub ghost struct ChampionModel {
    pub stats: ChampionStats,
    pub level: u8,
    pub initial_armor: Fixed,
    pub current_health: Fixed,
    pub abilities: Seq<(AbilityName, Ability)>,
    pub crit_info: Option<(CritAdjuster, CritCalculation)>,
    pub effects: Seq<EffectData>,
    pub on_hit_item_effects: Seq<OnHit>,
    pub ranks: [u8; 4],
}

impl View for Champion {
    type V = ChampionModel;

    open spec fn view(&self) -> ChampionModel {
        ChampionModel {
            stats: self.stats,
            level: self.level,
            initial_armor: self.initial_armor,
            current_health: self.current_health,
            abilities: self.abilities.data@,
            crit_info: self.crit_info,
            effects: self.effects@,
            on_hit_item_effects: self.on_hit_item_effects@,
            ranks: self.ranks,
        }
    }
}

/// The stored value of `1000.0`: the health of a target dummy.
pub const DUMMY_HEALTH: i64 = 1_000_000_000_000;

/// The stored value of `325.0`: the attack range above which a champion
/// counts as ranged.
pub const MELEE_RANGE: i64 = 325_000_000_000;

/// The valid effects among the first `n`, in their order.
pub open spec fn valid_among(effects: Seq<EffectData>, now: Fixed, n: nat) -> Seq<EffectData>
    decreases n,
{
    if n == 0 {
        Seq::empty()
    } else {
        let before = valid_among(effects, now, (n - 1) as nat);
        if effects[n - 1].valid_at(now) {
            before.push(effects[n - 1])
        } else {
            before
        }
    }
}

/// `start` with every valid armor-reducing effect among the first `n`
/// added, in their order.
pub open spec fn reducer_with(start: ArmorReducer, effects: Seq<EffectData>, now: Fixed, n: nat) -> ArmorReducer
    decreases n,
{
    if n == 0 {
        start
    } else {
        let before = reducer_with(start, effects, now, (n - 1) as nat);
        match effects[n - 1].result {
            EffectResult::ArmorReducer(reducer) if effects[n - 1].valid_at(now) => before.combined(
                reducer,
            ),
            _ => before,
        }
    }
}

impl ChampionModel {
    /// A target dummy with the given armor and magic resistance.
    pub open spec fn dummy(armor: Fixed, magic_resist: Fixed) -> ChampionModel {
        ChampionModel {
            stats: ChampionStats { health: DUMMY_HEALTH, armor, magic_resist, ..ChampionStats::zero() },
            level: 1,
            initial_armor: armor,
            current_health: DUMMY_HEALTH,
            abilities: Seq::empty(),
            crit_info: None,
            effects: Seq::empty(),
            on_hit_item_effects: Seq::empty(),
            ranks: [0, 0, 0, 0],
        }
    }

    /// A champion with `stats` at `level`, at full health, without items
    /// or effects.
    pub open spec fn fresh(
        stats: ChampionStats,
        level: u8,
        ranks: [u8; 4],
        abilities: Seq<(AbilityName, Ability)>,
    ) -> ChampionModel {
        ChampionModel {
            stats,
            level,
            initial_armor: stats.armor,
            current_health: clamp(grown(stats.health as int, stats.health_per_level as int, level as int)) as i64,
            abilities,
            crit_info: None,
            effects: Seq::empty(),
            on_hit_item_effects: Seq::empty(),
            ranks,
        }
    }

    /// Armor without items, grown to the champion's level.
    pub open spec fn base_armor(&self) -> Fixed {
        clamp(grown(self.initial_armor as int, self.stats.armor_per_level as int, self.level as int)) as i64
    }

    /// Armor that items added.
    pub open spec fn bonus_armor(&self) -> Fixed {
        clamp(self.stats.armor - self.initial_armor) as i64
    }

    /// Health at the champion's level.
    pub open spec fn max_health(&self) -> Fixed {
        clamp(grown(self.stats.health as int, self.stats.health_per_level as int, self.level as int)) as i64
    }

    /// Magic resistance at the champion's level.
    pub open spec fn magic_resist(&self) -> Fixed {
        clamp(
            grown(
                self.stats.magic_resist as int,
                self.stats.magic_resist_per_level as int,
                self.level as int,
            ),
        ) as i64
    }

    /// Attack damage at the champion's level, without bonus attack damage.
    pub open spec fn base_ad(&self) -> Fixed {
        BasicAttack::of_stats(self.stats, self.level).base_attack_damage
    }

    /// Whether the champion attacks from a distance.
    pub open spec fn is_ranged(&self) -> bool {
        self.stats.attack_range > MELEE_RANGE
    }

    /// What an attack sees of this champion.
    pub open spec fn vitality(&self) -> VitalityData {
        VitalityData {
            base_armor: self.base_armor(),
            bonus_armor: self.bonus_armor(),
            magic_resist: self.magic_resist(),
            max_health: self.max_health(),
            current_health: self.current_health,
        }
    }

    /// Everything that lowers this champion's armor against `attacker`:
    /// the attacker's own penetration and the valid armor-reducing effects
    /// on this champion.
    pub open spec fn reducer_against(&self, attacker: ChampionModel, now: Fixed) -> ArmorReducer {
        reducer_with(
            ArmorReducer::of_stats(attacker.stats, attacker.level),
            self.effects,
            now,
            self.effects.len(),
        )
    }

    /// Health that `damage` from `attacker` costs this champion: the damage
    /// resisted by the effective armor.
    pub open spec fn damage_taken(&self, attacker: ChampionModel, damage: Fixed, now: Fixed) -> Fixed {
        clamp(
            resisted(
                damage as int,
                self.reducer_against(attacker, now).effective_armor(self.vitality()),
            ),
        ) as i64
    }

    /// This champion after `damage` from `attacker`.
    pub open spec fn damaged(&self, attacker: ChampionModel, damage: Fixed, now: Fixed) -> ChampionModel {
        ChampionModel {
            current_health: clamp(self.current_health - self.damage_taken(attacker, damage, now)) as i64,
            ..*self
        }
    }
}

impl Champion {
    /// A target dummy with 1000 health and the given resistances.
    pub fn new_dummy_with_resist(armor: Fixed, magic_resist: Fixed) -> (r: Champion)
        ensures
            r@ == ChampionModel::dummy(armor, magic_resist),
    {
        let mut stats = ChampionStats::default();
        stats.health = DUMMY_HEALTH;
        stats.armor = armor;
        stats.magic_resist = magic_resist;
        Champion {
            level: 1,
            stats,
            initial_armor: armor,
            current_health: DUMMY_HEALTH,
            abilities: NamedClosures { data: Vec::new() },
            on_hit_item_effects: Vec::new(),
            crit_info: None,
            effects: Vec::new(),
            ranks: [0, 0, 0, 0],
        }
    }

    /// A target dummy without resistances.
    pub fn new_dummy() -> (r: Champion)
        ensures
            r@ == ChampionModel::dummy(0, 0),
    {
        Champion::new_dummy_with_resist(0, 0)
    }

    /// A champion with `stats` at `level`, at full health.
    pub fn new(stats: ChampionStats, level: u8, ranks: [u8; 4], abilities: NamedClosures) -> (r: Champion)
        ensures
            r@ == ChampionModel::fresh(stats, level, ranks, abilities.data@),
    {
        let health = stat_at_level(stats.health, stats.health_per_level, level);
        let initial_armor = stats.armor;
        Champion {
            level,
            stats,
            initial_armor,
            on_hit_item_effects: Vec::new(),
            current_health: health,
            abilities,
            crit_info: None,
            effects: Vec::new(),
            ranks,
        }
    }

    /// Armor without items, grown to the champion's level.
    pub fn get_base_armor(&self) -> (r: Fixed)
        ensures
            r == self@.base_armor(),
    {
        stat_at_level(self.initial_armor, self.stats.armor_per_level, self.level)
    }

    /// Bonus attack damage.
    pub fn get_bonus_ad(&self) -> (r: Fixed)
        ensures
            r == self.stats.bonus_attack_damage,
    {
        self.stats.bonus_attack_damage
    }

    /// Armor that items added.
    pub fn get_bonus_armor(&self) -> (r: Fixed)
        ensures
            r == self@.bonus_armor(),
    {
        sat_sub(self.stats.armor, self.initial_armor)
    }

    /// Health at the champion's level.
    pub fn get_max_health(&self) -> (r: Fixed)
        ensures
            r == self@.max_health(),
    {
        stat_at_level(self.stats.health, self.stats.health_per_level, self.level)
    }

    /// Health lost so far.
    pub fn get_missing_health(&self) -> (r: Fixed)
        ensures
            r == clamp(self@.max_health() - self.current_health),
    {
        sat_sub(self.get_max_health(), self.current_health)
    }

    /// Attack damage at the champion's level, without bonus attack damage.
    pub fn get_base_ad(&self) -> (r: Fixed)
        ensures
            r == self@.base_ad(),
    {
        BasicAttack::from((&self.stats, self.level)).base_attack_damage
    }

    fn get_magic_resist(&self) -> (r: Fixed)
        ensures
            r == self@.magic_resist(),
    {
        stat_at_level(self.stats.magic_resist, self.stats.magic_resist_per_level, self.level)
    }

    /// Whether the champion attacks from a distance.
    pub fn is_ranged(&self) -> (r: bool)
        ensures
            r == self@.is_ranged(),
    {
        self.stats.attack_range > MELEE_RANGE
    }

    /// Restores all health.
    pub fn full_heal(&mut self)
        ensures
            final(self)@ == (ChampionModel { current_health: old(self)@.max_health(), ..old(self)@ }),
    {
        self.current_health = self.get_max_health()
    }

    /// Takes `damage` from `attacker`: the damage is resisted by this
    /// champion's armor, lowered by the attacker's penetration and by the
    /// armor-reducing effects that are valid at `now`, and comes off the
    /// current health.
    pub fn receive_damage(&mut self, attacker: &Champion, damage: Fixed, now: Fixed)
        ensures
            final(self)@ == old(self)@.damaged(attacker@, damage, now),
            damage >= 0 ==> final(self).current_health <= old(self).current_health,
    {
        let mut armor_reducer = ArmorReducer::from((&attacker.stats, attacker.level));
        let mut i: usize = 0;
        while i < self.effects.len()
            invariant
                i <= self.effects.len(),
                *self == *old(self),
                armor_reducer == reducer_with(
                    ArmorReducer::of_stats(attacker.stats, attacker.level),
                    self.effects@,
                    now,
                    i as nat,
                ),
            decreases self.effects.len() - i,
        {
            let effect = &self.effects[i];
            if effect.is_valid(now) {
                match &effect.result {
                    EffectResult::ArmorReducer(reducer) => {
                        armor_reducer.add_armor_reducer(reducer);
                    },
                    _ => {},
                }
            }
            i += 1;
        }
        let target_data = self.get_vitality_data();
        let effective_armor = armor_reducer.get_effective_armor(&target_data);
        let final_damage = resist_damage(damage, effective_armor);
        self.current_health = sat_sub(self.current_health, final_damage);
    }

    /// The effects that are valid at `now`, oldest first.
    pub fn valid_effects(&self, now: Fixed) -> (r: Vec<&EffectData>)
        ensures
            r@.map_values(|e: &EffectData| *e) == valid_among(self.effects@, now, self.effects@.len()),
    {
        let mut out: Vec<&EffectData> = Vec::new();
        let mut i: usize = 0;
        while i < self.effects.len()
            invariant
                i <= self.effects.len(),
                out@.map_values(|e: &EffectData| *e) == valid_among(self.effects@, now, i as nat),
            decreases self.effects.len() - i,
        {
            if self.effects[i].is_valid(now) {
                let ghost before = out@.map_values(|e: &EffectData| *e);
                out.push(&self.effects[i]);
                assert(out@.map_values(|e: &EffectData| *e) =~= before.push(self.effects@[i as int]));
            }
            i += 1;
        }
        out
    }
}

impl Target for Champion {
    fn get_vitality_data(&self) -> (r: VitalityData)
        ensures
            r == self@.vitality(),
    {
        VitalityData {
            base_armor: self.get_base_armor(),
            bonus_armor: self.get_bonus_armor(),
            magic_resist: self.get_magic_resist(),
            max_health: self.get_max_health(),
            current_health: self.current_health,
        }
    }
}

/// The champions that can attack, each at a place that its handle names.
/// A champion that is removed leaves its place empty.
#[derive(Debug)]
pub struct Arena {
    pub champions: Vec<Option<Champion>>,
}

impl View for Arena {
    type V = Seq<Option<ChampionModel>>;

    open spec fn view(&self) -> Seq<Option<ChampionModel>> {
        Seq::new(
            self.champions@.len(),
            |i: int|
                match self.champions@[i] {
                    Some(champion) => Some(champion@),
                    None => None,
                },
        )
    }
}

/// `handle` names a champion that is still in the arena.
pub open spec fn holds(arena: Seq<Option<ChampionModel>>, handle: ChampionHandle) -> bool {
    handle.index < arena.len() && arena[handle.index as int] is Some
}

impl Arena {
    /// An arena without champions.
    pub fn new() -> (r: Arena)
        ensures
            r@ == Seq::<Option<ChampionModel>>::empty(),
    {
        let r = Arena { champions: Vec::new() };
        assert(r@ =~= Seq::<Option<ChampionModel>>::empty());
        r
    }

    /// Puts `champion` into the arena and hands back its handle.
    pub fn insert(&mut self, champion: Champion) -> (r: ChampionHandle)
        ensures
            final(self)@ == old(self)@.push(Some(champion@)),
            r.index == old(self)@.len(),
    {
        let index = self.champions.len();
        self.champions.push(Some(champion));
        assert(self@ =~= old(self)@.push(Some(champion@)));
        ChampionHandle { index }
    }

    /// The champion that `handle` names, if it is still there.
    pub fn get(&self, handle: ChampionHandle) -> (r: Option<&Champion>)
        ensures
            r is Some <==> holds(self@, handle),
            r matches Some(champion) ==> self@[handle.index as int] == Some(champion@),
    {
        if handle.index >= self.champions.len() {
            return None;
        }
        match &self.champions[handle.index] {
            Some(champion) => Some(champion),
            None => None,
        }
    }

    /// Takes the champion that `handle` names out of the arena. Effects
    /// that refer to it fire no more.
    pub fn remove(&mut self, handle: ChampionHandle) -> (r: Option<Champion>)
        ensures
            r is Some <==> holds(old(self)@, handle),
            r matches Some(champion) ==> old(self)@[handle.index as int] == Some(champion@),
            final(self)@ == if holds(old(self)@, handle) {
                old(self)@.update(handle.index as int, None)
            } else {
                old(self)@
            },
    {
        if handle.index >= self.champions.len() {
            return None;
        }
        let mut taken: Option<Champion> = None;
        std::mem::swap(&mut self.champions[handle.index], &mut taken);
        assert(self@ =~= if holds(old(self)@, handle) {
            old(self)@.update(handle.index as int, None)
        } else {
            old(self)@
        });
        taken
    }
}

impl Ability {
    /// The ability counts as one of Vi's hits, which stack toward her third
    /// hit.
    pub open spec fn is_denting(&self) -> bool {
        self is ViQ || self is ViE || self is ViAutoAttack
    }

    /// Raw damage of the ability, before the target's armor. `None` where
    /// the ability has a damage table and the table lacks the rank.
    pub open spec fn damage(&self, attacker: ChampionModel, target: ChampionModel, data: CastingData) -> Option<
        Fixed,
    > {
        let base_ad = attacker.base_ad();
        let bonus_ad = attacker.stats.bonus_attack_damage;
        match self {
            Ability::ViQ(info) => if data.rank < 5 {
                Some(Vi::q_damage(*info, base_ad, bonus_ad, data))
            } else {
                None
            },
            Ability::ViW(info) => if data.rank < 5 {
                Some(Vi::w_damage(*info, bonus_ad, target.max_health(), data))
            } else {
                None
            },
            Ability::ViE(info) => if data.rank < 5 {
                Some(Vi::e_damage(*info, base_ad, bonus_ad, attacker.crit_info, data))
            } else {
                None
            },
            Ability::ViR(info) => if data.rank < 5 {
                Some(Vi::r_damage(*info, base_ad, bonus_ad, data))
            } else {
                None
            },
            Ability::ViAutoAttack => Some(attack_damage(base_ad, bonus_ad, attacker.crit_info)),
            Ability::AutoAttack => Some(attack_damage(base_ad, bonus_ad, attacker.crit_info)),
            Ability::Nightstalker => Some(nightstalker_damage(bonus_ad, attacker.is_ranged())),
            Ability::SpellbladeSheen => Some(base_ad),
            Ability::SpellbladeEssenceReaver => Some(essence_reaver_damage(base_ad, bonus_ad)),
            Ability::SpellbladeDivineSunderer => Some(
                divine_sunderer_damage(base_ad, target.max_health(), attacker.is_ranged()),
            ),
        }
    }

    /// Whether the ability counts as one of Vi's hits.
    pub fn applies_denting_blows(&self) -> (r: bool)
        ensures
            r == self.is_denting(),
    {
        match self {
            Ability::ViQ(_) => true,
            Ability::ViE(_) => true,
            Ability::ViAutoAttack => true,
            _ => false,
        }
    }

    /// Computes [`Ability::damage`].
    pub fn raw_damage(&self, attacker: &Champion, target: &Champion, data: &CastingData) -> (r: Option<Fixed>)
        ensures
            r == self.damage(attacker@, target@, *data),
    {
        let base_ad = attacker.get_base_ad();
        let bonus_ad = attacker.get_bonus_ad();
        match self {
            Ability::ViQ(info) => if data.rank < 5 {
                Some(Vi::q_raw(info, base_ad, bonus_ad, data))
            } else {
                None
            },
            Ability::ViW(info) => if data.rank < 5 {
                Some(Vi::w_raw(info, bonus_ad, target.get_max_health(), data))
            } else {
                None
            },
            Ability::ViE(info) => if data.rank < 5 {
                Some(Vi::e_raw(info, base_ad, bonus_ad, &attacker.crit_info, data))
            } else {
                None
            },
            Ability::ViR(info) => if data.rank < 5 {
                Some(Vi::r_raw(info, base_ad, bonus_ad, data))
            } else {
                None
            },
            Ability::ViAutoAttack => Some(raw_attack_damage(base_ad, bonus_ad, &attacker.crit_info)),
            Ability::AutoAttack => Some(raw_attack_damage(base_ad, bonus_ad, &attacker.crit_info)),
            Ability::Nightstalker => Some(nightstalker_raw(bonus_ad, attacker.is_ranged())),
            Ability::SpellbladeSheen => Some(base_ad),
            Ability::SpellbladeEssenceReaver => Some(essence_reaver_raw(base_ad, bonus_ad)),
            Ability::SpellbladeDivineSunderer => Some(
                divine_sunderer_raw(base_ad, target.get_max_health(), attacker.is_ranged()),
            ),
        }
    }
}

impl Champion {
    /// The place of the first effect with the identity of `effect`.
    fn find_effect(&self, effect: &EffectData) -> (r: usize)
        ensures
            r == find_same(self.effects@, *effect, 0),
            r <= self.effects@.len(),
    {
        let mut i: usize = 0;
        while i < self.effects.len()
            invariant
                i <= self.effects.len(),
                find_same(self.effects@, *effect, 0) == find_same(self.effects@, *effect, i as int),
            decreases self.effects.len() - i,
        {
            if self.effects[i] == *effect {
                return i;
            }
            i += 1;
        }
        i
    }

    /// Upserts `effect` among the effects and hands back what that sets
    /// off, without setting it off.
    fn replace_effect(&mut self, effect: EffectData, now: Fixed) -> (r: Option<ThreeHitApplyInfo>)
        ensures
            final(self)@ == old(self)@.with_effects(upserted(old(self)@.effects, effect, now)),
            r == set_off_by(old(self)@.effects, effect, now),
    {
        let other_expiry = effect.expiry;
        let place = self.find_effect(&effect);
        if place >= self.effects.len() {
            self.effects.push(effect);
            return None;
        }
        let found = self.effects.remove(place);
        if !found.is_valid(now) {
            self.effects.push(effect);
            return None;
        }
        let found_expiry = found.expiry;
        let unique_name = found.unique_name;
        match found.result {
            EffectResult::ThreeHit(three_hit) => {
                if three_hit.hit_count >= 1 {
                    Some(three_hit.on_third_hit)
                } else {
                    let expiry = if found_expiry >= other_expiry {
                        found_expiry
                    } else {
                        other_expiry
                    };
                    self.effects.push(
                        EffectData {
                            expiry,
                            unique_name,
                            result: EffectResult::ThreeHit(
                                ThreeHit {
                                    hit_count: three_hit.hit_count + 1,
                                    on_third_hit: three_hit.on_third_hit,
                                },
                            ),
                        },
                    );
                    None
                }
            },
            other => {
                self.effects.push(EffectData { expiry: found_expiry, unique_name, result: other });
                None
            },
        }
    }

    /// Grants this champion, which stands at `handle`, its on-hit effects
    /// of the given mode.
    pub fn process_on_hit_effects(&mut self, handle: ChampionHandle, mode: OnHitActivation, now: Fixed)
        ensures
            final(self)@ == old(self)@.with_effects(
                granted(
                    old(self)@.effects,
                    old(self)@.on_hit_item_effects,
                    handle,
                    mode,
                    now,
                    old(self)@.on_hit_item_effects.len(),
                ),
            ),
            distinct(old(self)@.effects) ==> distinct(final(self)@.effects),
    {
        proof {
            if distinct(old(self)@.effects) {
                lemma_granted_distinct(
                    old(self)@.effects,
                    old(self)@.on_hit_item_effects,
                    handle,
                    mode,
                    now,
                    old(self)@.on_hit_item_effects.len(),
                );
            }
        }
        let mut i: usize = 0;
        while i < self.on_hit_item_effects.len()
            invariant
                i <= self.on_hit_item_effects.len(),
                self@ == old(self)@.with_effects(
                    granted(
                        old(self)@.effects,
                        old(self)@.on_hit_item_effects,
                        handle,
                        mode,
                        now,
                        i as nat,
                    ),
                ),
            decreases self.on_hit_item_effects.len() - i,
        {
            let on_hit = self.on_hit_item_effects[i];
            if on_hit.mode == mode {
                self.replace_effect(on_hit.to_effect(handle, now), now);
            }
            i += 1;
        }
    }

    /// Spends the empowered attacks of this champion that are ready at
    /// `now`, and hands back the abilities they release, oldest first.
    pub fn consume_empowered(&mut self, now: Fixed) -> (r: Vec<AbilityEffect>)
        ensures
            final(self)@ == old(self)@.with_effects(all_spent(old(self)@.effects, now)),
            r@ == all_released(old(self)@.effects, now, old(self)@.effects.len()),
            distinct(old(self)@.effects) ==> distinct(final(self)@.effects),
    {
        proof {
            if distinct(old(self)@.effects) {
                lemma_spent_distinct(old(self)@.effects, now);
            }
        }
        let mut out: Vec<AbilityEffect> = Vec::new();
        let mut i: usize = 0;
        while i < self.effects.len()
            invariant
                i <= self.effects.len(),
                self.effects@.len() == old(self).effects@.len(),
                self@ == old(self)@.with_effects(self.effects@),
                forall|j: int| 0 <= j < i ==> self.effects@[j] == spent(old(self).effects@[j], now),
                forall|j: int| i <= j < self.effects@.len() ==> self.effects@[j] == old(self).effects@[j],
                out@ == all_released(old(self).effects@, now, i as nat),
            decreases self.effects.len() - i,
        {
            let effect = &mut self.effects[i];
            if effect.expiry >= now {
                match effect.result {
                    EffectResult::EmpowerNextAttack(EmpowerState::Active(ability, cooldown)) => {
                        out.push(ability);
                        effect.expiry = sat_add(now, cooldown);
                        effect.result = EffectResult::EmpowerNextAttack(EmpowerState::Cooldown);
                    },
                    _ => {},
                }
            }
            i += 1;
        }
        assert(self.effects@ =~= all_spent(old(self).effects@, now));
        out
    }

    /// Sets off what a third hit on this champion ends in.
    fn set_off(&mut self, arena: &mut Arena, info: ThreeHitApplyInfo, now: Fixed, depth: u64)
        ensures
            (Fight { arena: final(arena)@, target: final(self)@ }) == set_off(
                old(arena)@,
                old(self)@,
                info,
                now,
                depth as nat,
            ),
        decreases depth, 0int,
    {
        if depth == 0 {
            return ;
        }
        let ThreeHitApplyInfo { ttl, unique_name, result } = info;
        match *result {
            EffectResult::AbilityEffect(ability) => {
                Champion::execute_ability_within(
                    arena,
                    ability.attacker,
                    &ability.name,
                    self,
                    &ability.data,
                    now,
                    depth - 1,
                );
            },
            other => {
                self.upsert_effect_within(
                    arena,
                    EffectData { expiry: sat_add(now, ttl), unique_name, result: other },
                    now,
                    depth - 1,
                );
            },
        }
    }

    /// [`Champion::upsert_effect`] with a limit on how deep the abilities
    /// that it sets off may nest.
    pub(crate) fn upsert_effect_within(
        &mut self,
        arena: &mut Arena,
        effect: EffectData,
        now: Fixed,
        depth: u64,
    ) -> (r: Option<()>)
        ensures
            (Fight { arena: final(arena)@, target: final(self)@ }) == upsert(
                old(arena)@,
                old(self)@,
                effect,
                now,
                depth as nat,
            ),
            r is None <==> set_off_by(old(self)@.effects, effect, now) is Some,
        decreases depth, 1int,
    {
        match self.replace_effect(effect, now) {
            Some(info) => {
                self.set_off(arena, info, now, depth);
                None
            },
            None => Some(()),
        }
    }

    /// Puts `effect` on this champion at time `now`, in place of the effect
    /// of the same name and kind if there is one.
    ///
    /// Where that one had lapsed, or there was none, `effect` is added as it
    /// is. Where it was still valid, it stays in place of `effect`: a
    /// counter of hits counts one more and lasts until the later of the two
    /// expiries, an effect of any other kind keeps its payload and its own
    /// expiry. A counter that counted a hit before goes instead, and sets
    /// off what it ends in: an ability is executed on this champion by its
    /// attacker from `arena`, any other pending effect is upserted in turn.
    /// The result is `None` exactly where something was set off.
    pub fn upsert_effect(&mut self, arena: &mut Arena, effect: EffectData, now: Fixed) -> (r: Option<()>)
        ensures
            (Fight { arena: final(arena)@, target: final(self)@ }) == upsert(
                old(arena)@,
                old(self)@,
                effect,
                now,
                MAX_NESTING as nat,
            ),
            r is None <==> set_off_by(old(self)@.effects, effect, now) is Some,
            same_places(old(arena)@, final(arena)@),
            distinct(old(self)@.effects) ==> distinct(final(self)@.effects),
            all_distinct(old(arena)@) ==> all_distinct(final(arena)@),
    {
        proof {
            lemma_upsert_keeps_order(old(arena)@, old(self)@, effect, now, MAX_NESTING as nat);
        }
        self.upsert_effect_within(arena, effect, now, MAX_NESTING)
    }

    /// Lets `ability` of the champion at `attacker` take place on `target`.
    fn perform(
        arena: &mut Arena,
        target: &mut Champion,
        attacker: ChampionHandle,
        ability: Ability,
        data: &CastingData,
        now: Fixed,
        depth: u64,
    )
        ensures
            (Fight { arena: final(arena)@, target: final(target)@ }) == performed(
                old(arena)@,
                old(target)@,
                attacker,
                ability,
                *data,
                now,
                depth as nat,
            ),
        decreases depth, 4int,
    {
        match arena.get(attacker) {
            None => {
                return ;
            },
            Some(champion) => {
                match ability.raw_damage(champion, target, data) {
                    None => {
                        return ;
                    },
                    Some(raw) => {
                        target.receive_damage(champion, raw, now);
                    },
                }
            },
        }
        if ability.applies_denting_blows() {
            Vi::apply_w_effect_within(target, arena, attacker, now, depth);
        }
    }

    /// Executes the abilities that empowered attacks released, in their
    /// order.
    fn fire_follow_ups(
        arena: &mut Arena,
        target: &mut Champion,
        follow_ups: &Vec<AbilityEffect>,
        now: Fixed,
        depth: u64,
    )
        requires
            depth > 0,
        ensures
            (Fight { arena: final(arena)@, target: final(target)@ }) == fired(
                old(arena)@,
                old(target)@,
                follow_ups@,
                now,
                depth as nat,
                follow_ups@.len(),
            ),
        decreases depth, 5int,
    {
        let mut i: usize = 0;
        while i < follow_ups.len()
            invariant
                i <= follow_ups.len(),
                depth > 0,
                (Fight { arena: arena@, target: target@ }) == fired(
                    old(arena)@,
                    old(target)@,
                    follow_ups@,
                    now,
                    depth as nat,
                    i as nat,
                ),
            decreases follow_ups.len() - i,
        {
            let ability = follow_ups[i];
            Champion::execute_ability_within(
                arena,
                ability.attacker,
                &ability.name,
                target,
                &ability.data,
                now,
                depth - 1,
            );
            i += 1;
        }
    }

    /// [`Champion::execute_ability`] with a limit on how deep the
    /// abilities that it sets off may nest.
    pub(crate) fn execute_ability_within(
        arena: &mut Arena,
        attacker: ChampionHandle,
        name: &AbilityName,
        target: &mut Champion,
        casting_data: &CastingData,
        now: Fixed,
        depth: u64,
    ) -> (r: Option<Fixed>)
        ensures
            (r, Fight { arena: final(arena)@, target: final(target)@ }) == executed(
                old(arena)@,
                attacker,
                *name,
                old(target)@,
                *casting_data,
                now,
                depth as nat,
            ),
        decreases depth, 6int,
    {
        if depth == 0 || arena.get(attacker).is_none() {
            return None;
        }
        let initial_health = target.current_health;
        let (ability, follow_ups) = match &mut arena.champions[attacker.index] {
            None => (None, Vec::new()),
            Some(champion) => {
                match name {
                    AbilityName::AUTO => {
                        champion.process_on_hit_effects(attacker, OnHitActivation::Auto, now);
                    },
                    AbilityName::Q | AbilityName::W | AbilityName::E | AbilityName::R => {
                        champion.process_on_hit_effects(attacker, OnHitActivation::ActiveSpell, now);
                    },
                    _ => {},
                }
                let follow_ups = match name {
                    AbilityName::AUTO => champion.consume_empowered(now),
                    _ => Vec::new(),
                };
                let ability = match champion.abilities.get(name) {
                    Some(ability) => Some(ability),
                    None => static_ability(name),
                };
                (ability, follow_ups)
            },
        };
        proof {
            let champion = old(arena)@[attacker.index as int]->0;
            assert(arena@ =~= old(arena)@.update(
                attacker.index as int,
                Some(champion.prepared(attacker, *name, now)),
            ));
        }
        match ability {
            Some(ability) => {
                Champion::perform(arena, target, attacker, ability, casting_data, now, depth);
            },
            None => {},
        }
        Champion::fire_follow_ups(arena, target, &follow_ups, now, depth);
        Some(sat_sub(initial_health, target.current_health))
    }

    /// Executes ability `name` of the champion at `attacker` on `target` at
    /// time `now`, and reports the damage dealt: the health that the
    /// target lost.
    ///
    /// Where the attacker is no longer in `arena`, nothing happens and the
    /// result is `None`. Otherwise the attacker is first granted its on-hit
    /// effects for this class of ability, and for a basic attack its ready
    /// empowered attacks go on cooldown. Then the ability takes place: the
    /// attacker's own under that name, else the one every champion has;
    /// where there is none, nothing. Last, the abilities that the empowered
    /// attacks released are executed in turn.
    pub fn execute_ability(
        arena: &mut Arena,
        attacker: ChampionHandle,
        name: &AbilityName,
        target: &mut Champion,
        casting_data: &CastingData,
        now: Fixed,
    ) -> (r: Option<Fixed>)
        ensures
            (r, Fight { arena: final(arena)@, target: final(target)@ }) == executed(
                old(arena)@,
                attacker,
                *name,
                old(target)@,
                *casting_data,
                now,
                MAX_NESTING as nat,
            ),
            r is Some <==> holds(old(arena)@, attacker),
            same_places(old(arena)@, final(arena)@),
            distinct(old(target)@.effects) ==> distinct(final(target)@.effects),
            all_distinct(old(arena)@) ==> all_distinct(final(arena)@),
    {
        proof {
            lemma_executed_keeps_order(
                old(arena)@,
                attacker,
                *name,
                old(target)@,
                *casting_data,
                now,
                MAX_NESTING as nat,
            );
        }
        Champion::execute_ability_within(arena, attacker, name, target, casting_data, now, MAX_NESTING)
    }
}

impl Champion {
    /// Executes the abilities of `combo` on `target`, one after another in
    /// their order, all by the champion at `attacker` and all at time `now`.
    pub fn execute_combo(
        arena: &mut Arena,
        attacker: ChampionHandle,
        combo: Vec<(AbilityName, CastingData)>,
        target: &mut Champion,
        now: Fixed,
    )
        ensures
            (Fight { arena: final(arena)@, target: final(target)@ }) == combo_done(
                old(arena)@,
                attacker,
                combo@,
                old(target)@,
                now,
                combo@.len(),
            ),
            same_places(old(arena)@, final(arena)@),
            distinct(old(target)@.effects) ==> distinct(final(target)@.effects),
            all_distinct(old(arena)@) ==> all_distinct(final(arena)@),
    {
        proof {
            lemma_combo_keeps_order(old(arena)@, attacker, combo@, old(target)@, now, combo@.len());
        }
        let mut i: usize = 0;
        while i < combo.len()
            invariant
                i <= combo.len(),
                (Fight { arena: arena@, target: target@ }) == combo_done(
                    old(arena)@,
                    attacker,
                    combo@,
                    old(target)@,
                    now,
                    i as nat,
                ),
            decreases combo.len() - i,
        {
            let (name, data) = combo[i];
            Champion::execute_ability(arena, attacker, &name, target, &data, now);
            i += 1;
        }
    }
}

} // verus!
