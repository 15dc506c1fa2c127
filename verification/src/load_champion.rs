//! Champion statistics as the engine holds them.
use crate::fixed::Fixed;
use vstd::prelude::*;

verus! {

/// Base statistics of a champion, their growth per level, and the bonuses
/// that items have added. Every field is a [`Fixed`] quantity.
#[derive(Clone, Copy, Debug)]
pub struct ChampionStats {
    pub health: Fixed,
    pub health_per_level: Fixed,
    pub mana: Fixed,
    pub mana_per_level: Fixed,
    pub move_speed: Fixed,
    pub armor: Fixed,
    pub armor_per_level: Fixed,
    pub magic_resist: Fixed,
    pub magic_resist_per_level: Fixed,
    pub attack_range: Fixed,
    pub health_regen: Fixed,
    pub health_regen_per_level: Fixed,
    pub mana_regen: Fixed,
    pub mana_regen_per_level: Fixed,
    pub critical_strike_chance: Fixed,
    pub crit_per_level: Fixed,
    pub bonus_attack_damage: Fixed,
    pub base_attack_damage: Fixed,
    pub attack_damage_per_level: Fixed,
    pub attack_speed_per_level: Fixed,
    pub attack_speed: Fixed,
    pub bonus_attack_speed: Fixed,
    pub life_steal: Fixed,
    pub percent_movement_speed: Fixed,
    pub ability_haste: Fixed,
    pub omnivamp: Fixed,
    pub ability_power: Fixed,
    pub percent_armor_pen: Fixed,
    pub lethality: Fixed,
}

impl ChampionStats {
    /// Statistics that are all zero.
    pub open spec fn zero() -> ChampionStats {
        ChampionStats {
            health: 0,
            health_per_level: 0,
            mana: 0,
            mana_per_level: 0,
            move_speed: 0,
            armor: 0,
            armor_per_level: 0,
            magic_resist: 0,
            magic_resist_per_level: 0,
            attack_range: 0,
            health_regen: 0,
            health_regen_per_level: 0,
            mana_regen: 0,
            mana_regen_per_level: 0,
            critical_strike_chance: 0,
            crit_per_level: 0,
            bonus_attack_damage: 0,
            base_attack_damage: 0,
            attack_damage_per_level: 0,
            attack_speed_per_level: 0,
            attack_speed: 0,
            bonus_attack_speed: 0,
            life_steal: 0,
            percent_movement_speed: 0,
            ability_haste: 0,
            omnivamp: 0,
            ability_power: 0,
            percent_armor_pen: 0,
            lethality: 0,
        }
    }
}

impl Default for ChampionStats {
    fn default() -> (r: ChampionStats)
        ensures
            r == ChampionStats::zero(),
    {
        ChampionStats {
            health: 0,
            health_per_level: 0,
            mana: 0,
            mana_per_level: 0,
            move_speed: 0,
            armor: 0,
            armor_per_level: 0,
            magic_resist: 0,
            magic_resist_per_level: 0,
            attack_range: 0,
            health_regen: 0,
            health_regen_per_level: 0,
            mana_regen: 0,
            mana_regen_per_level: 0,
            critical_strike_chance: 0,
            crit_per_level: 0,
            bonus_attack_damage: 0,
            base_attack_damage: 0,
            attack_damage_per_level: 0,
            attack_speed_per_level: 0,
            attack_speed: 0,
            bonus_attack_speed: 0,
            life_steal: 0,
            percent_movement_speed: 0,
            ability_haste: 0,
            omnivamp: 0,
            ability_power: 0,
            percent_armor_pen: 0,
            lethality: 0,
        }
    }
}

/// Something that changes a champion's statistics, such as an item.
pub trait ChampionStatModifier {
    /// The statistics after the change.
    spec fn modified(&self, stats: ChampionStats) -> ChampionStats;

    /// Applies the change in place.
    fn modify_champion_stats(&self, stats: &mut ChampionStats)
        ensures
            *final(stats) == self.modified(*old(stats)),
    ;
}

} // verus!
