//! A target without abilities, for measuring damage.
use crate::champions::champion::DUMMY_HEALTH;
use crate::fixed::clamp;
use crate::fixed::Fixed;
use crate::formulas::grown;
use crate::formulas::stat_at_level;
use crate::load_champion::ChampionStats;
use vstd::prelude::*;

verus! {

/// A target dummy: level 1, 1000 health, and the resistances it was made
/// with.
#[derive(Clone, Copy, Debug)]
pub struct TargetDummy {
    pub level: u8,
    pub stats: ChampionStats,
    /// Armor before any item.
    pub initial_armor: Fixed,
    pub current_health: Fixed,
}

impl TargetDummy {
    /// The dummy with the given armor and magic resistance, at full health.
    pub open spec fn with_resist(armor: Fixed, magic_resist: Fixed) -> TargetDummy {
        TargetDummy {
            stats: ChampionStats { health: DUMMY_HEALTH, armor, magic_resist, ..ChampionStats::zero() },
            initial_armor: armor,
            current_health: DUMMY_HEALTH,
            level: 1,
        }
    }

    /// Health at the dummy's level.
    pub open spec fn max_health(&self) -> Fixed {
        clamp(grown(self.stats.health as int, self.stats.health_per_level as int, self.level as int)) as i64
    }

    /// A dummy without resistances.
    pub fn new() -> (r: TargetDummy)
        ensures
            r == TargetDummy::with_resist(0, 0),
    {
        TargetDummy::new_with_resist(0, 0)
    }

    /// A dummy with the given armor and magic resistance.
    pub fn new_with_resist(armor: Fixed, magic_resist: Fixed) -> (r: TargetDummy)
        ensures
            r == TargetDummy::with_resist(armor, magic_resist),
    {
        let mut stats = ChampionStats::default();
        stats.health = DUMMY_HEALTH;
        stats.armor = armor;
        stats.magic_resist = magic_resist;
        TargetDummy { stats, initial_armor: armor, current_health: DUMMY_HEALTH, level: 1 }
    }

    /// Restores all health.
    pub fn full_heal(&mut self)
        ensures
            *final(self) == (TargetDummy { current_health: old(self).max_health(), ..*old(self) }),
    {
        self.current_health = self.get_max_health()
    }

    /// Health at the dummy's level.
    pub fn get_max_health(&self) -> (r: Fixed)
        ensures
            r == self.max_health(),
    {
        stat_at_level(self.stats.health, self.stats.health_per_level, self.level)
    }

    /// The dummy's statistics, to change them.
    pub fn get_stats_mut(&mut self) -> (r: &mut ChampionStats)
        ensures
            *r == old(self).stats,
            *final(self) == (TargetDummy { stats: *final(r), ..*old(self) }),
    {
        &mut self.stats
    }

    /// The dummy's level.
    pub fn get_level(&self) -> (r: u8)
        ensures
            r == self.level,
    {
        self.level
    }

    /// The dummy's statistics.
    pub fn get_stats(&self) -> (r: &ChampionStats)
        ensures
            *r == self.stats,
    {
        &self.stats
    }

    /// The dummy's health now.
    pub fn get_current_health(&self) -> (r: Fixed)
        ensures
            r == self.current_health,
    {
        self.current_health
    }

    /// The dummy's health now, to change it.
    pub fn get_current_health_mut(&mut self) -> (r: &mut Fixed)
        ensures
            *r == old(self).current_health,
            *final(self) == (TargetDummy { current_health: *final(r), ..*old(self) }),
    {
        &mut self.current_health
    }

    /// The dummy's armor before any item.
    pub fn get_initial_armor(&self) -> (r: Fixed)
        ensures
            r == self.initial_armor,
    {
        self.initial_armor
    }
}

} // verus!
