//! Combat calculations for a battle-arena game.
//!
//! The library answers how much damage a combination of abilities deals to
//! a target: it takes raw damage through armor, armor reduction and armor
//! penetration ([`formulas`], [`armor_reducer`], [`attack`]), keeps the
//! timed effects on each combatant ([`target`]), and executes abilities by
//! name against a target ([`champions`]).
//!
//! Numbers are fixed-point ([`fixed`]): every quantity is a count of
//! billionths, results are rounded down to the billionth and stop at the
//! ends of the 64-bit range. Time is passed in: every function that looks
//! at the clock takes the time now as an argument. Attackers live in an
//! arena and are named by handles, so that an effect can refer to an
//! attacker that is gone by the time the effect fires.
pub mod armor_reducer;
pub mod attack;
pub mod champions;
pub mod fixed;
pub mod formulas;
pub mod item_effects;
pub mod load_champion;
pub mod load_dd_item;
pub mod load_item;
pub mod load_wiki_item;
pub mod target;
pub mod time_manager;
