//! The champion Leblanc, as a target.
use crate::fixed::clamp;
use crate::fixed::Fixed;
use crate::formulas::grown;
use crate::formulas::stat_at_level;
use crate::load_champion::ChampionStats;
use vstd::prelude::*;

verus! {

/// Leblanc at a level, with her statistics and her health.
#[derive(Clone, Copy, Debug)]
pub struct Leblanc {
    pub level: u8,
    pub stats: ChampionStats,
    /// Armor before any item.
    pub initial_armor: Fixed,
    pub current_health: Fixed,
}

impl Leblanc {
    pub const NAME: &'static str = "Leblanc";

    /// Leblanc with `stats` at `level`, at full health.
    pub fn new(stats: ChampionStats, level: u8) -> (r: Leblanc)
        ensures
            r == (Leblanc {
                stats,
                initial_armor: stats.armor,
                current_health: clamp(
                    grown(stats.health as int, stats.health_per_level as int, level as int),
                ) as i64,
                level,
            }),
    {
        let health = stat_at_level(stats.health, stats.health_per_level, level);
        let initial_armor = stats.armor;
        Leblanc { stats, initial_armor, current_health: health, level }
    }
}

} // verus!
