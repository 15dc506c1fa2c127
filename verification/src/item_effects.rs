//! What items do beyond their statistics.
use crate::champions::champion::Ability;
use crate::champions::champion::AbilityName;
use crate::champions::champion::CastingData;
use crate::champions::champion::Champion;
use crate::champions::champion::ChampionHandle;
use crate::champions::champion::ChampionModel;
use crate::fixed::clamp;
use crate::fixed::mul_div;
use crate::fixed::sat_add;
use crate::fixed::scale;
use crate::fixed::Fixed;
use crate::fixed::UNIT;
use crate::load_champion::ChampionStatModifier;
use crate::load_wiki_item::WikiItemStatDeltas;
use crate::target::AbilityEffect;
use crate::target::EffectData;
use crate::target::EffectName;
use crate::target::EffectResult;
use crate::target::EmpowerState;
use vstd::prelude::*;
use vstd::std_specs::convert::FromSpecImpl;

verus! {

/// What sets an on-hit effect off.
#[derive(Clone, Copy, Debug, PartialEq, Eq, Structural)]
pub enum OnHitActivation {
    /// A basic attack.
    Auto,
    /// One of the four active abilities.
    ActiveSpell,
}

/// An empowered attack that an item grants: the ability it fires, for how
/// many seconds it stays ready (without end where `ttl` is `None`), and the
/// cooldown after it fired.
#[derive(Clone, Copy, Debug)]
pub struct OnHit {
    pub ttl: Option<Fixed>,
    pub name: AbilityName,
    pub cooldown: Fixed,
    pub mode: OnHitActivation,
}

impl OnHit {
    /// When an effect granted at `now` runs out. Without a time to live it
    /// lasts to the end of time.
    pub open spec fn expiry_at(&self, now: Fixed) -> Fixed {
        match self.ttl {
            Some(ttl) => clamp(now + ttl) as i64,
            None => i64::MAX,
        }
    }

    /// The effect that this grants to `attacker` at `now`: a ready
    /// empowered attack, named after its ability.
    pub open spec fn granted_effect(&self, attacker: ChampionHandle, now: Fixed) -> EffectData {
        EffectData {
            expiry: self.expiry_at(now),
            unique_name: EffectName::Ability(self.name),
            result: EffectResult::EmpowerNextAttack(
                EmpowerState::Active(
                    AbilityEffect {
                        attacker,
                        name: self.name,
                        data: CastingData { charge: 0, rank: 0 },
                    },
                    self.cooldown,
                ),
            ),
        }
    }

    /// Builds [`OnHit::granted_effect`].
    pub fn to_effect(&self, attacker: ChampionHandle, now: Fixed) -> (r: EffectData)
        ensures
            r == self.granted_effect(attacker, now),
    {
        let expiry = match self.ttl {
            Some(ttl) => sat_add(now, ttl),
            None => i64::MAX,
        };
        EffectData {
            expiry,
            unique_name: EffectName::Ability(self.name),
            result: EffectResult::EmpowerNextAttack(
                EmpowerState::Active(
                    AbilityEffect {
                        attacker,
                        name: self.name,
                        data: CastingData { charge: 0, rank: 0 },
                    },
                    self.cooldown,
                ),
            ),
        }
    }
}

/// The abilities that items grant to any champion, and the plain basic
/// attack.
pub open spec fn item_ability(name: AbilityName) -> Option<Ability> {
    match name {
        AbilityName::NIGHTSTALKER => Some(Ability::Nightstalker),
        AbilityName::SpellbladeSheen => Some(Ability::SpellbladeSheen),
        AbilityName::SpellbladeEssenceReaver => Some(Ability::SpellbladeEssenceReaver),
        AbilityName::SpellbladeDivineSunderer => Some(Ability::SpellbladeDivineSunderer),
        AbilityName::AUTO => Some(Ability::AutoAttack),
        _ => None,
    }
}

/// Looks `name` up among the abilities that every champion has.
pub fn static_ability(name: &AbilityName) -> (r: Option<Ability>)
    ensures
        r == item_ability(*name),
{
    match name {
        AbilityName::NIGHTSTALKER => Some(Ability::Nightstalker),
        AbilityName::SpellbladeSheen => Some(Ability::SpellbladeSheen),
        AbilityName::SpellbladeEssenceReaver => Some(Ability::SpellbladeEssenceReaver),
        AbilityName::SpellbladeDivineSunderer => Some(Ability::SpellbladeDivineSunderer),
        AbilityName::AUTO => Some(Ability::AutoAttack),
        _ => None,
    }
}

/// Raw damage of Nightstalker: 75 plus three tenths of bonus attack damage
/// for a ranged attacker, 55 plus a quarter for a melee one.
pub open spec fn nightstalker_damage(bonus_ad: Fixed, is_ranged: bool) -> Fixed {
    if is_ranged {
        clamp(75_000_000_000 + scale(bonus_ad as int, 300_000_000, UNIT as int)) as i64
    } else {
        clamp(55_000_000_000 + scale(bonus_ad as int, 250_000_000, UNIT as int)) as i64
    }
}

/// Raw damage of Essence Reaver's Spellblade: base attack damage plus four
/// tenths of bonus attack damage.
pub open spec fn essence_reaver_damage(base_ad: Fixed, bonus_ad: Fixed) -> Fixed {
    clamp(base_ad + scale(bonus_ad as int, 400_000_000, UNIT as int)) as i64
}

/// Raw damage of Divine Sunderer's Spellblade: five quarters of base attack
/// damage plus six hundredths of the target's maximum health for a ranged
/// attacker, three hundredths for a melee one.
pub open spec fn divine_sunderer_damage(base_ad: Fixed, target_max_health: Fixed, is_ranged: bool) -> Fixed {
    clamp(
        scale(base_ad as int, 1_250_000_000, UNIT as int) + scale(
            target_max_health as int,
            if is_ranged { 60_000_000int } else { 30_000_000int },
            UNIT as int,
        ),
    ) as i64
}

/// Computes [`nightstalker_damage`].
pub fn nightstalker_raw(bonus_ad: Fixed, is_ranged: bool) -> (r: Fixed)
    ensures
        r == nightstalker_damage(bonus_ad, is_ranged),
{
    if is_ranged {
        sat_add(75_000_000_000, mul_div(bonus_ad, 300_000_000, UNIT))
    } else {
        sat_add(55_000_000_000, mul_div(bonus_ad, 250_000_000, UNIT))
    }
}

/// Computes [`essence_reaver_damage`].
pub fn essence_reaver_raw(base_ad: Fixed, bonus_ad: Fixed) -> (r: Fixed)
    ensures
        r == essence_reaver_damage(base_ad, bonus_ad),
{
    sat_add(base_ad, mul_div(bonus_ad, 400_000_000, UNIT))
}

/// Computes [`divine_sunderer_damage`].
pub fn divine_sunderer_raw(base_ad: Fixed, target_max_health: Fixed, is_ranged: bool) -> (r: Fixed)
    ensures
        r == divine_sunderer_damage(base_ad, target_max_health, is_ranged),
{
    let percent_health_damage: Fixed = if is_ranged { 60_000_000 } else { 30_000_000 };
    sat_add(
        mul_div(base_ad, 1_250_000_000, UNIT),
        mul_div(target_max_health, percent_health_damage, UNIT),
    )
}

/// An effect of an item as the item table describes it.
#[derive(Clone, Debug)]
pub struct UnknownItemEffect {
    pub name: String,
    pub description: String,
    pub unique: bool,
}

/// Something that can be applied to a champion, and is used up by that.
pub trait ChampionApplyable: Sized {
    /// The champion after this was applied.
    spec fn applied(self, champion: ChampionModel) -> ChampionModel;

    /// Applies this to `champion`.
    fn apply_to_champ(self, champion: &mut Champion)
        ensures
            final(champion)@ == self.applied(old(champion)@),
    ;
}

/// An effect of an item that the engine does not model.
#[derive(Debug)]
pub struct UnhandledItemEffect {
    pub name: String,
    pub description: String,
}

/// An effect of an item that changes statistics.
#[derive(Clone, Copy, Debug)]
pub struct StatItemEffect {
    pub stats: WikiItemStatDeltas,
}

/// An effect of an item in the form that the engine applies.
#[derive(Debug)]
pub enum ConcreteItemEffect {
    StatItemEffect(StatItemEffect),
    OnHit(OnHit),
    UnhandledItemEffect(UnhandledItemEffect),
}

/// The stored value of `10.0`: the seconds for which a Spellblade stays
/// ready, and the lethality of Gouge.
pub const TEN: i64 = 10_000_000_000;

/// The stored value of `1.5`: the seconds of cooldown of a Spellblade.
pub const SPELLBLADE_COOLDOWN: i64 = 1_500_000_000;

/// The stored value of `15.0`: the seconds of cooldown of Nightstalker.
pub const NIGHTSTALKER_COOLDOWN: i64 = 15_000_000_000;

/// The empowered attack of a Spellblade that fires `name`.
pub open spec fn spellblade(name: AbilityName) -> OnHit {
    OnHit { ttl: Some(TEN), name, mode: OnHitActivation::ActiveSpell, cooldown: SPELLBLADE_COOLDOWN }
}

/// The effect of an item in the form that the engine applies.
///
/// "Spellblade" is the empowered attack after an active spell of the
/// items "Sheen", "Essence Reaver" and "Divine Sunderer"; "Nightstalker" is
/// an empowered basic attack; "Gouge" is ten lethality. Every other effect,
/// and a Spellblade of any other item, is not modelled.
pub open spec fn concrete_effect(incoming: UnknownItemEffect, item_name: Seq<char>) -> ConcreteItemEffect {
    let unhandled = ConcreteItemEffect::UnhandledItemEffect(
        UnhandledItemEffect { name: incoming.name, description: incoming.description },
    );
    if incoming.name@ == "Spellblade"@ {
        if item_name == "Sheen"@ {
            ConcreteItemEffect::OnHit(spellblade(AbilityName::SpellbladeSheen))
        } else if item_name == "Essence Reaver"@ {
            ConcreteItemEffect::OnHit(spellblade(AbilityName::SpellbladeEssenceReaver))
        } else if item_name == "Divine Sunderer"@ {
            ConcreteItemEffect::OnHit(spellblade(AbilityName::SpellbladeDivineSunderer))
        } else {
            unhandled
        }
    } else if incoming.name@ == "Nightstalker"@ {
        ConcreteItemEffect::OnHit(
            OnHit {
                ttl: None,
                name: AbilityName::NIGHTSTALKER,
                mode: OnHitActivation::Auto,
                cooldown: NIGHTSTALKER_COOLDOWN,
            },
        )
    } else if incoming.name@ == "Gouge"@ {
        ConcreteItemEffect::StatItemEffect(
            StatItemEffect {
                stats: WikiItemStatDeltas { lethality: Some(TEN), ..WikiItemStatDeltas::none() },
            },
        )
    } else {
        unhandled
    }
}

/// Whether `text` reads `literal`.
fn reads(text: &str, literal: &str) -> (r: bool)
    ensures
        r == (text@ == literal@),
{
    let left: String = text.to_owned();
    let right: String = literal.to_owned();
    left == right
}

impl<'a, 'b> From<(&'a UnknownItemEffect, &'b str)> for ConcreteItemEffect {
    fn from(tuple: (&'a UnknownItemEffect, &'b str)) -> (r: ConcreteItemEffect) {
        let (incoming, item_name) = tuple;
        let name = incoming.name.as_str();
        if reads(name, "Spellblade") {
            if reads(item_name, "Sheen") {
                ConcreteItemEffect::OnHit(
                    OnHit {
                        ttl: Some(TEN),
                        name: AbilityName::SpellbladeSheen,
                        mode: OnHitActivation::ActiveSpell,
                        cooldown: SPELLBLADE_COOLDOWN,
                    },
                )
            } else if reads(item_name, "Essence Reaver") {
                ConcreteItemEffect::OnHit(
                    OnHit {
                        ttl: Some(TEN),
                        name: AbilityName::SpellbladeEssenceReaver,
                        mode: OnHitActivation::ActiveSpell,
                        cooldown: SPELLBLADE_COOLDOWN,
                    },
                )
            } else if reads(item_name, "Divine Sunderer") {
                ConcreteItemEffect::OnHit(
                    OnHit {
                        ttl: Some(TEN),
                        name: AbilityName::SpellbladeDivineSunderer,
                        mode: OnHitActivation::ActiveSpell,
                        cooldown: SPELLBLADE_COOLDOWN,
                    },
                )
            } else {
                ConcreteItemEffect::UnhandledItemEffect(
                    UnhandledItemEffect {
                        name: incoming.name.clone(),
                        description: incoming.description.clone(),
                    },
                )
            }
        } else if reads(name, "Nightstalker") {
            ConcreteItemEffect::OnHit(
                OnHit {
                    ttl: None,
                    name: AbilityName::NIGHTSTALKER,
                    mode: OnHitActivation::Auto,
                    cooldown: NIGHTSTALKER_COOLDOWN,
                },
            )
        } else if reads(name, "Gouge") {
            let mut stats = WikiItemStatDeltas::default();
            stats.lethality = Some(TEN);
            ConcreteItemEffect::StatItemEffect(StatItemEffect { stats })
        } else {
            ConcreteItemEffect::UnhandledItemEffect(
                UnhandledItemEffect {
                    name: incoming.name.clone(),
                    description: incoming.description.clone(),
                },
            )
        }
    }
}

impl<'a, 'b> FromSpecImpl<(&'a UnknownItemEffect, &'b str)> for ConcreteItemEffect {
    open spec fn obeys_from_spec() -> bool {
        true
    }

    open spec fn from_spec(tuple: (&'a UnknownItemEffect, &'b str)) -> ConcreteItemEffect {
        concrete_effect(*tuple.0, tuple.1@)
    }
}

impl ChampionApplyable for OnHit {
    /// The champion has the empowered attack among its on-hit effects.
    open spec fn applied(self, champion: ChampionModel) -> ChampionModel {
        ChampionModel { on_hit_item_effects: champion.on_hit_item_effects.push(self), ..champion }
    }

    fn apply_to_champ(self, champion: &mut Champion) {
        champion.on_hit_item_effects.push(self);
    }
}

impl ChampionApplyable for StatItemEffect {
    /// The champion's statistics are changed.
    open spec fn applied(self, champion: ChampionModel) -> ChampionModel {
        ChampionModel { stats: self.stats.modified(champion.stats), ..champion }
    }

    fn apply_to_champ(self, champion: &mut Champion) {
        self.stats.modify_champion_stats(&mut champion.stats)
    }
}

impl ChampionApplyable for UnhandledItemEffect {
    /// The champion stays as it is.
    open spec fn applied(self, champion: ChampionModel) -> ChampionModel {
        champion
    }

    fn apply_to_champ(self, champion: &mut Champion) {
    }
}

impl ChampionApplyable for ConcreteItemEffect {
    /// The champion after the effect inside was applied.
    open spec fn applied(self, champion: ChampionModel) -> ChampionModel {
        match self {
            ConcreteItemEffect::StatItemEffect(v) => v.applied(champion),
            ConcreteItemEffect::UnhandledItemEffect(v) => v.applied(champion),
            ConcreteItemEffect::OnHit(v) => v.applied(champion),
        }
    }

    fn apply_to_champ(self, champion: &mut Champion) {
        match self {
            ConcreteItemEffect::StatItemEffect(v) => v.apply_to_champ(champion),
            ConcreteItemEffect::UnhandledItemEffect(v) => v.apply_to_champ(champion),
            ConcreteItemEffect::OnHit(v) => v.apply_to_champ(champion),
        }
    }
}

} // verus!
