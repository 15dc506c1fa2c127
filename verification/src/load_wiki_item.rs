//! Item statistics in the form of the item table that names them by
//! abbreviation.
use crate::champions::champion::Champion;
use crate::champions::champion::ChampionModel;
use crate::fixed::clamp;
use crate::fixed::sat_add;
use crate::fixed::Fixed;
use crate::formulas::stack_multiplicative_reduction;
use crate::formulas::stacked;
use crate::item_effects::concrete_effect;
use crate::item_effects::ChampionApplyable;
use crate::item_effects::ConcreteItemEffect;
use crate::item_effects::UnknownItemEffect;
use crate::load_champion::ChampionStatModifier;
use crate::load_champion::ChampionStats;
use vstd::prelude::*;
use vstd::string::StrSliceExecFns;

verus! {

/// What an item adds to each statistic, where it adds anything.
#[derive(Clone, Copy, Debug)]
pub struct WikiItemStatDeltas {
    pub attack_damage: Option<Fixed>,
    pub ability_haste: Option<Fixed>,
    pub ability_power: Option<Fixed>,
    pub armor: Option<Fixed>,
    pub percent_armor_pen: Option<Fixed>,
    pub attack_speed: Option<Fixed>,
    pub crit_chance: Option<Fixed>,
    pub health: Option<Fixed>,
    pub lethality: Option<Fixed>,
    pub lifesteal: Option<Fixed>,
    pub omnivamp: Option<Fixed>,
    pub percent_movement_speed: Option<Fixed>,
    pub flat_movement_speed: Option<Fixed>,
    pub magic_resist: Option<Fixed>,
    pub mana: Option<Fixed>,
    pub percent_magic_pen: Option<Fixed>,
    pub flat_magic_pen: Option<Fixed>,
    pub spec: Option<Fixed>,
    pub mp5: Option<Fixed>,
    pub heal_sheild_power: Option<Fixed>,
    pub gold_per_10: Option<Fixed>,
    pub hp5: Option<Fixed>,
    pub hp5flat: Option<Fixed>,
}

/// The amount of a delta, zero where the item has none.
pub open spec fn or_zero(delta: Option<Fixed>) -> Fixed {
    match delta {
        Some(amount) => amount,
        None => 0,
    }
}

/// The amount of a delta, zero where the item has none.
pub fn unwrap_or_zero(delta: Option<Fixed>) -> (r: Fixed)
    ensures
        r == or_zero(delta),
{
    match delta {
        Some(amount) => amount,
        None => 0,
    }
}

impl WikiItemStatDeltas {
    /// Deltas that change nothing.
    pub open spec fn none() -> WikiItemStatDeltas {
        WikiItemStatDeltas {
            attack_damage: None,
            ability_haste: None,
            ability_power: None,
            armor: None,
            percent_armor_pen: None,
            attack_speed: None,
            crit_chance: None,
            health: None,
            lethality: None,
            lifesteal: None,
            omnivamp: None,
            percent_movement_speed: None,
            flat_movement_speed: None,
            magic_resist: None,
            mana: None,
            percent_magic_pen: None,
            flat_magic_pen: None,
            spec: None,
            mp5: None,
            heal_sheild_power: None,
            gold_per_10: None,
            hp5: None,
            hp5flat: None,
        }
    }
}

impl Default for WikiItemStatDeltas {
    fn default() -> (r: WikiItemStatDeltas)
        ensures
            r == WikiItemStatDeltas::none(),
    {
        WikiItemStatDeltas {
            attack_damage: None,
            ability_haste: None,
            ability_power: None,
            armor: None,
            percent_armor_pen: None,
            attack_speed: None,
            crit_chance: None,
            health: None,
            lethality: None,
            lifesteal: None,
            omnivamp: None,
            percent_movement_speed: None,
            flat_movement_speed: None,
            magic_resist: None,
            mana: None,
            percent_magic_pen: None,
            flat_magic_pen: None,
            spec: None,
            mp5: None,
            heal_sheild_power: None,
            gold_per_10: None,
            hp5: None,
            hp5flat: None,
        }
    }
}

/// An item adds its deltas to the statistics. Percent armor penetration
/// is not added but stacked with diminishing returns.
impl ChampionStatModifier for WikiItemStatDeltas {
    open spec fn modified(&self, stats: ChampionStats) -> ChampionStats {
        ChampionStats {
            armor: clamp(stats.armor + or_zero(self.armor)) as i64,
            magic_resist: clamp(stats.magic_resist + or_zero(self.magic_resist)) as i64,
            health_regen: clamp(stats.health_regen + or_zero(self.hp5flat)) as i64,
            health: clamp(stats.health + or_zero(self.health)) as i64,
            mana: clamp(stats.mana + or_zero(self.mana)) as i64,
            bonus_attack_damage: clamp(stats.bonus_attack_damage + or_zero(self.attack_damage)) as i64,
            bonus_attack_speed: clamp(stats.bonus_attack_speed + or_zero(self.attack_speed)) as i64,
            lethality: clamp(stats.lethality + or_zero(self.lethality)) as i64,
            life_steal: clamp(stats.life_steal + or_zero(self.lifesteal)) as i64,
            percent_movement_speed: clamp(stats.percent_movement_speed + or_zero(self.percent_movement_speed)) as i64,
            move_speed: clamp(stats.move_speed + or_zero(self.flat_movement_speed)) as i64,
            ability_haste: clamp(stats.ability_haste + or_zero(self.ability_haste)) as i64,
            ability_power: clamp(stats.ability_power + or_zero(self.ability_power)) as i64,
            omnivamp: clamp(stats.omnivamp + or_zero(self.omnivamp)) as i64,
            percent_armor_pen: clamp(stacked(or_zero(self.percent_armor_pen) as int, stats.percent_armor_pen as int)) as i64,
            ..stats
        }
    }

    fn modify_champion_stats(&self, stats: &mut ChampionStats) {
        stats.armor = sat_add(stats.armor, unwrap_or_zero(self.armor));
        stats.magic_resist = sat_add(stats.magic_resist, unwrap_or_zero(self.magic_resist));
        stats.health_regen = sat_add(stats.health_regen, unwrap_or_zero(self.hp5flat));
        stats.health = sat_add(stats.health, unwrap_or_zero(self.health));
        stats.mana = sat_add(stats.mana, unwrap_or_zero(self.mana));
        stats.bonus_attack_damage = sat_add(stats.bonus_attack_damage, unwrap_or_zero(self.attack_damage));
        stats.bonus_attack_speed = sat_add(stats.bonus_attack_speed, unwrap_or_zero(self.attack_speed));
        stats.lethality = sat_add(stats.lethality, unwrap_or_zero(self.lethality));
        stats.life_steal = sat_add(stats.life_steal, unwrap_or_zero(self.lifesteal));
        stats.percent_movement_speed = sat_add(stats.percent_movement_speed, unwrap_or_zero(self.percent_movement_speed));
        stats.move_speed = sat_add(stats.move_speed, unwrap_or_zero(self.flat_movement_speed));
        stats.ability_haste = sat_add(stats.ability_haste, unwrap_or_zero(self.ability_haste));
        stats.ability_power = sat_add(stats.ability_power, unwrap_or_zero(self.ability_power));
        stats.omnivamp = sat_add(stats.omnivamp, unwrap_or_zero(self.omnivamp));
        stats.percent_armor_pen = stack_multiplicative_reduction(
            unwrap_or_zero(self.percent_armor_pen),
            stats.percent_armor_pen,
        );
    }
}

/// The champion after the first `n` of an item's effects were applied, in
/// their order.
pub open spec fn with_item_effects(
    champion: ChampionModel,
    item_name: Seq<char>,
    effects: Seq<UnknownItemEffect>,
    n: nat,
) -> ChampionModel
    decreases n,
{
    if n == 0 {
        champion
    } else {
        concrete_effect(effects[n - 1], item_name).applied(
            with_item_effects(champion, item_name, effects, (n - 1) as nat),
        )
    }
}

/// The champion with the item: its effects applied, then its statistics
/// added.
pub open spec fn with_item(
    champion: ChampionModel,
    item_name: Seq<char>,
    item: WikiItemStatDeltas,
    effects: Seq<UnknownItemEffect>,
) -> ChampionModel {
    let equipped = with_item_effects(champion, item_name, effects, effects.len());
    ChampionModel { stats: item.modified(equipped.stats), ..equipped }
}

/// Gives `champion` the item `item_name`, whose statistics are `item` and
/// whose effects are `effects`: applies each effect in its order, then
/// adds the statistics.
pub fn apply_item_to_champ(
    item_name: &str,
    item: &WikiItemStatDeltas,
    effects: &Vec<UnknownItemEffect>,
    champion: &mut Champion,
)
    ensures
        final(champion)@ == with_item(old(champion)@, item_name@, *item, effects@),
{
    let mut i: usize = 0;
    while i < effects.len()
        invariant
            i <= effects.len(),
            champion@ == with_item_effects(old(champion)@, item_name@, effects@, i as nat),
        decreases effects.len() - i,
    {
        let concrete = ConcreteItemEffect::from((&effects[i], item_name));
        concrete.apply_to_champ(champion);
        i += 1;
    }
    item.modify_champion_stats(&mut champion.stats);
}

/// The key names a passive effect: it begins with "pass".
pub open spec fn passive_key(key: Seq<char>) -> bool {
    key.len() >= 4 && key[0] == 'p' && key[1] == 'a' && key[2] == 's' && key[3] == 's'
}

/// Whether `key` names a passive effect.
pub fn is_passive_key(key: &str) -> (r: bool)
    ensures
        r == passive_key(key@),
{
    key.unicode_len() >= 4 && key.get_char(0) == 'p' && key.get_char(1) == 'a' && key.get_char(2)
        == 's' && key.get_char(3) == 's'
}

} // verus!
