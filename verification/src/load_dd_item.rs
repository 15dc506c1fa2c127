//! Item statistics in the form of the game's own item table.
use crate::fixed::clamp;
use crate::fixed::sat_add;
use crate::fixed::Fixed;
use crate::load_champion::ChampionStatModifier;
use crate::load_champion::ChampionStats;
use crate::load_wiki_item::or_zero;
use crate::load_wiki_item::unwrap_or_zero;
use vstd::prelude::*;

verus! {

/// What an item adds to each statistic, where it adds anything.
#[derive(Clone, Copy, Debug)]
pub struct DDItemStatDeltas {
    pub armor: Option<Fixed>,
    pub crit_chance: Option<Fixed>,
    pub health: Option<Fixed>,
    pub health_regen: Option<Fixed>,
    pub ability_power: Option<Fixed>,
    pub flat_movement_speed: Option<Fixed>,
    pub mana: Option<Fixed>,
    pub attack_damage: Option<Fixed>,
    pub magic_resist: Option<Fixed>,
    pub bonus_attack_speed: Option<Fixed>,
    pub life_steal: Option<Fixed>,
    pub percent_movement_speed: Option<Fixed>,
}

impl DDItemStatDeltas {
    /// Deltas that change nothing.
    pub open spec fn none() -> DDItemStatDeltas {
        DDItemStatDeltas {
            armor: None,
            crit_chance: None,
            health: None,
            health_regen: None,
            ability_power: None,
            flat_movement_speed: None,
            mana: None,
            attack_damage: None,
            magic_resist: None,
            bonus_attack_speed: None,
            life_steal: None,
            percent_movement_speed: None,
        }
    }
}

impl Default for DDItemStatDeltas {
    fn default() -> (r: DDItemStatDeltas)
        ensures
            r == DDItemStatDeltas::none(),
    {
        DDItemStatDeltas {
            armor: None,
            crit_chance: None,
            health: None,
            health_regen: None,
            ability_power: None,
            flat_movement_speed: None,
            mana: None,
            attack_damage: None,
            magic_resist: None,
            bonus_attack_speed: None,
            life_steal: None,
            percent_movement_speed: None,
        }
    }
}

/// An item adds its deltas to the statistics.
impl ChampionStatModifier for DDItemStatDeltas {
    open spec fn modified(&self, stats: ChampionStats) -> ChampionStats {
        ChampionStats {
            armor: clamp(stats.armor + or_zero(self.armor)) as i64,
            magic_resist: clamp(stats.magic_resist + or_zero(self.magic_resist)) as i64,
            health_regen: clamp(stats.health_regen + or_zero(self.health_regen)) as i64,
            health: clamp(stats.health + or_zero(self.health)) as i64,
            mana: clamp(stats.mana + or_zero(self.mana)) as i64,
            bonus_attack_damage: clamp(stats.bonus_attack_damage + or_zero(self.attack_damage)) as i64,
            bonus_attack_speed: clamp(stats.bonus_attack_speed + or_zero(self.bonus_attack_speed)) as i64,
            life_steal: clamp(stats.life_steal + or_zero(self.life_steal)) as i64,
            percent_movement_speed: clamp(stats.percent_movement_speed + or_zero(self.percent_movement_speed)) as i64,
            move_speed: clamp(stats.move_speed + or_zero(self.flat_movement_speed)) as i64,
            ..stats
        }
    }

    fn modify_champion_stats(&self, stats: &mut ChampionStats) {
        stats.armor = sat_add(stats.armor, unwrap_or_zero(self.armor));
        stats.magic_resist = sat_add(stats.magic_resist, unwrap_or_zero(self.magic_resist));
        stats.health_regen = sat_add(stats.health_regen, unwrap_or_zero(self.health_regen));
        stats.health = sat_add(stats.health, unwrap_or_zero(self.health));
        stats.mana = sat_add(stats.mana, unwrap_or_zero(self.mana));
        stats.bonus_attack_damage = sat_add(stats.bonus_attack_damage, unwrap_or_zero(self.attack_damage));
        stats.bonus_attack_speed = sat_add(stats.bonus_attack_speed, unwrap_or_zero(self.bonus_attack_speed));
        stats.life_steal = sat_add(stats.life_steal, unwrap_or_zero(self.life_steal));
        stats.percent_movement_speed = sat_add(stats.percent_movement_speed, unwrap_or_zero(self.percent_movement_speed));
        stats.move_speed = sat_add(stats.move_speed, unwrap_or_zero(self.flat_movement_speed));
    }
}

} // verus!
