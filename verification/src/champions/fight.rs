//! What executing abilities does to a fight, as mathematics: the
//! functions that the contracts of the engine speak of.
use crate::armor_reducer::ArmorReducer;
use crate::champions::champion::ability_from;
use crate::champions::champion::holds;
use crate::champions::champion::Ability;
use crate::champions::champion::AbilityName;
use crate::champions::champion::CastingData;
use crate::champions::champion::ChampionHandle;
use crate::champions::champion::ChampionModel;
use crate::fixed::clamp;
use crate::fixed::Fixed;
use crate::item_effects::item_ability;
use crate::item_effects::OnHit;
use crate::item_effects::OnHitActivation;
use crate::target::AbilityEffect;
use crate::target::EffectData;
use crate::target::EffectName;
use crate::target::EffectResult;
use crate::target::EmpowerState;
use crate::target::ThreeHit;
use crate::target::ThreeHitApplyInfo;
use vstd::prelude::*;

verus! {

/// The state that executing an ability changes: the arena of attackers and
/// the target.
pub ghost struct Fight {
    pub arena: Seq<Option<ChampionModel>>,
    pub target: ChampionModel,
}

/// How deep abilities that effects set off may nest. No stack holds as many
/// calls, so the limit is never met.
pub const MAX_NESTING: u64 = 0xffff_ffff_ffff_ffff;

/// The place of the first effect at or after `from` with the identity of
/// `effect`; the number of effects where there is none.
pub open spec fn find_same(effects: Seq<EffectData>, effect: EffectData, from: int) -> int
    decreases effects.len() - from,
{
    if from < 0 || from >= effects.len() {
        effects.len() as int
    } else if effects[from].same_identity(effect) {
        from
    } else {
        find_same(effects, effect, from + 1)
    }
}

/// The later of two times.
pub open spec fn later(a: Fixed, b: Fixed) -> Fixed {
    if a >= b {
        a
    } else {
        b
    }
}

/// What a valid effect becomes when it is upserted again with `expiry`: a
/// counter of hits counts one more and lasts until the later of the two
/// expiries; an effect of any other kind stays as it is, with its own
/// expiry. `None` for a counter that has counted a hit before: this one is
/// the third, and the counter goes.
pub open spec fn bumped(found: EffectData, expiry: Fixed) -> Option<EffectData> {
    match found.result {
        EffectResult::ThreeHit(three_hit) => if three_hit.hit_count >= 1 {
            None
        } else {
            Some(
                EffectData {
                    expiry: later(found.expiry, expiry),
                    unique_name: found.unique_name,
                    result: EffectResult::ThreeHit(
                        ThreeHit {
                            hit_count: (three_hit.hit_count + 1) as u8,
                            on_third_hit: three_hit.on_third_hit,
                        },
                    ),
                },
            )
        },
        _ => Some(found),
    }
}

/// The effects after `effect` is upserted at `now`, before anything that
/// the upsert sets off. The effect of the same identity leaves its place;
/// if it was valid it comes back at the end, bumped, and `effect` is
/// dropped; if it had lapsed, or there was none, `effect` itself goes to
/// the end.
pub open spec fn upserted(effects: Seq<EffectData>, effect: EffectData, now: Fixed) -> Seq<EffectData> {
    let place = find_same(effects, effect, 0);
    if place >= effects.len() {
        effects.push(effect)
    } else if !effects[place].valid_at(now) {
        effects.remove(place).push(effect)
    } else {
        match bumped(effects[place], effect.expiry) {
            Some(bumped_effect) => effects.remove(place).push(bumped_effect),
            None => effects.remove(place),
        }
    }
}

/// What upserting `effect` at `now` sets off: the pending effect of a
/// valid counter with the same identity that has counted a hit before.
pub open spec fn set_off_by(effects: Seq<EffectData>, effect: EffectData, now: Fixed) -> Option<
    ThreeHitApplyInfo,
> {
    let place = find_same(effects, effect, 0);
    if place < effects.len() && effects[place].valid_at(now) {
        match effects[place].result {
            EffectResult::ThreeHit(three_hit) if three_hit.hit_count >= 1 => Some(
                three_hit.on_third_hit,
            ),
            _ => None,
        }
    } else {
        None
    }
}

/// The effect that stands for a pending effect once it is set off.
pub open spec fn landed(info: ThreeHitApplyInfo, now: Fixed) -> EffectData {
    EffectData {
        expiry: clamp(now + info.ttl) as i64,
        unique_name: info.unique_name,
        result: *info.result,
    }
}

/// The counter of hits that ends in `info`, started at `now` for `ttl`
/// seconds.
pub open spec fn counter_for(info: ThreeHitApplyInfo, ttl: Fixed, now: Fixed) -> EffectData {
    EffectData {
        unique_name: info.unique_name,
        expiry: clamp(now + ttl) as i64,
        result: EffectResult::ThreeHit(ThreeHit { hit_count: 0, on_third_hit: info }),
    }
}

/// The stored value of `4.0`: the seconds for which Vi's hits stack and
/// her armor shred lasts.
pub const DENTING_BLOWS_SECONDS: i64 = 4_000_000_000;

/// The stored value of `20.0`: the percentage of armor that Vi's third hit
/// takes off.
pub const DENTING_BLOWS_SHRED: i64 = 20_000_000_000;

/// What the third of Vi's hits deals: her third-hit damage, cast by
/// `attacker` at `rank`.
pub open spec fn denting_damage(attacker: ChampionHandle, rank: u8) -> ThreeHitApplyInfo {
    ThreeHitApplyInfo {
        unique_name: EffectName::DentingBlowsDamage,
        result: Box::new(
            EffectResult::AbilityEffect(
                AbilityEffect {
                    attacker,
                    name: AbilityName::W,
                    data: CastingData { charge: 0, rank },
                },
            ),
        ),
        ttl: 0,
    }
}

/// What the third of Vi's hits leaves: a fifth less armor for four
/// seconds.
pub open spec fn denting_armor() -> ThreeHitApplyInfo {
    ThreeHitApplyInfo {
        unique_name: EffectName::DentingBlowsArmor,
        result: Box::new(
            EffectResult::ArmorReducer(
                ArmorReducer {
                    percent_armor_reduction: DENTING_BLOWS_SHRED,
                    ..ArmorReducer::zero()
                },
            ),
        ),
        ttl: DENTING_BLOWS_SECONDS,
    }
}

/// What executing `name` makes ready: on-hit effects of basic attacks for
/// a basic attack, those of active spells for one of the four abilities,
/// none for anything else.
pub open spec fn activation_of(name: AbilityName) -> Option<OnHitActivation> {
    match name {
        AbilityName::AUTO => Some(OnHitActivation::Auto),
        AbilityName::Q | AbilityName::W | AbilityName::E | AbilityName::R => Some(
            OnHitActivation::ActiveSpell,
        ),
        _ => None,
    }
}

/// `effects` after the first `n` on-hit effects of the given mode were
/// granted to the champion at `handle`, in their order.
pub open spec fn granted(
    effects: Seq<EffectData>,
    on_hits: Seq<OnHit>,
    handle: ChampionHandle,
    mode: OnHitActivation,
    now: Fixed,
    n: nat,
) -> Seq<EffectData>
    decreases n,
{
    if n == 0 {
        effects
    } else {
        let before = granted(effects, on_hits, handle, mode, now, (n - 1) as nat);
        if on_hits[n - 1].mode == mode {
            upserted(before, on_hits[n - 1].granted_effect(handle, now), now)
        } else {
            before
        }
    }
}

/// An effect after a basic attack of its owner at `now`: a valid, ready
/// empowered attack goes on cooldown for as long as it says. Everything
/// else stays.
pub open spec fn spent(effect: EffectData, now: Fixed) -> EffectData {
    match effect.result {
        EffectResult::EmpowerNextAttack(EmpowerState::Active(_, cooldown)) if effect.valid_at(now) => EffectData {
            expiry: clamp(now + cooldown) as i64,
            unique_name: effect.unique_name,
            result: EffectResult::EmpowerNextAttack(EmpowerState::Cooldown),
        },
        _ => effect,
    }
}

/// The ability that a basic attack at `now` releases from `effect`: that
/// of a valid, ready empowered attack.
pub open spec fn released(effect: EffectData, now: Fixed) -> Option<AbilityEffect> {
    match effect.result {
        EffectResult::EmpowerNextAttack(EmpowerState::Active(ability, _)) if effect.valid_at(now) => Some(
            ability,
        ),
        _ => None,
    }
}

/// The effect is an empowered attack that a basic attack at `now` releases:
/// it is ready and valid.
pub open spec fn ready(effect: EffectData, now: Fixed) -> bool {
    released(effect, now) is Some
}

/// None of `effects` is an empowered attack that a basic attack at `now`
/// releases.
pub open spec fn none_ready(effects: Seq<EffectData>, now: Fixed) -> bool {
    forall|i: int| 0 <= i < effects.len() ==> !ready(#[trigger] effects[i], now)
}

/// No valid effect among `effects` has the identity of `effect`: there is
/// none, or it has lapsed.
pub open spec fn lapsed_or_absent(effects: Seq<EffectData>, effect: EffectData, now: Fixed) -> bool {
    forall|i: int|
        0 <= i < effects.len() && (#[trigger] effects[i]).same_identity(effect) ==> !effects[i].valid_at(
            now,
        )
}

/// Every effect after a basic attack of its owner.
pub open spec fn all_spent(effects: Seq<EffectData>, now: Fixed) -> Seq<EffectData> {
    Seq::new(effects.len(), |i: int| spent(effects[i], now))
}

/// The abilities that a basic attack releases from the first `n` effects,
/// in their order.
pub open spec fn all_released(effects: Seq<EffectData>, now: Fixed, n: nat) -> Seq<AbilityEffect>
    decreases n,
{
    if n == 0 {
        Seq::empty()
    } else {
        let before = all_released(effects, now, (n - 1) as nat);
        match released(effects[n - 1], now) {
            Some(ability) => before.push(ability),
            None => before,
        }
    }
}

impl ChampionModel {
    /// This champion with other effects.
    pub open spec fn with_effects(&self, effects: Seq<EffectData>) -> ChampionModel {
        ChampionModel { effects, ..*self }
    }

    /// The attacker at `handle` after the on-hit effects that executing
    /// `name` makes ready were granted.
    pub open spec fn with_grants(&self, handle: ChampionHandle, name: AbilityName, now: Fixed) -> ChampionModel {
        match activation_of(name) {
            Some(mode) => self.with_effects(
                granted(
                    self.effects,
                    self.on_hit_item_effects,
                    handle,
                    mode,
                    now,
                    self.on_hit_item_effects.len(),
                ),
            ),
            None => *self,
        }
    }

    /// The attacker at `handle` as it goes into executing `name`: on-hit
    /// effects granted and, for a basic attack, empowered attacks spent.
    pub open spec fn prepared(&self, handle: ChampionHandle, name: AbilityName, now: Fixed) -> ChampionModel {
        let granted = self.with_grants(handle, name, now);
        if name == AbilityName::AUTO {
            granted.with_effects(all_spent(granted.effects, now))
        } else {
            granted
        }
    }

    /// The abilities that follow executing `name`: for a basic attack,
    /// what its empowered attacks release.
    pub open spec fn follow_ups(&self, handle: ChampionHandle, name: AbilityName, now: Fixed) -> Seq<AbilityEffect> {
        let granted = self.with_grants(handle, name, now);
        if name == AbilityName::AUTO {
            all_released(granted.effects, now, granted.effects.len())
        } else {
            Seq::empty()
        }
    }

    /// What `name` does for this champion: its own ability of that name,
    /// else the one that every champion has, else nothing.
    pub open spec fn ability_of(&self, name: AbilityName) -> Option<Ability> {
        match ability_from(self.abilities, name, 0) {
            Some(ability) => Some(ability),
            None => item_ability(name),
        }
    }
}

/// The fight after `effect` is upserted on the target at `now`: the
/// effects change as [`upserted`] says, and then what the upsert set off
/// takes place.
pub open spec fn upsert(
    arena: Seq<Option<ChampionModel>>,
    target: ChampionModel,
    effect: EffectData,
    now: Fixed,
    depth: nat,
) -> Fight
    decreases depth, 1int,
{
    let after = target.with_effects(upserted(target.effects, effect, now));
    match set_off_by(target.effects, effect, now) {
        Some(info) => set_off(arena, after, info, now, depth),
        None => Fight { arena, target: after },
    }
}

/// The fight after a third hit set `info` off: an ability is executed at
/// once, anything else is upserted as an effect of its own. Past the
/// nesting limit nothing happens.
pub open spec fn set_off(
    arena: Seq<Option<ChampionModel>>,
    target: ChampionModel,
    info: ThreeHitApplyInfo,
    now: Fixed,
    depth: nat,
) -> Fight
    decreases depth, 0int,
{
    if depth == 0 {
        Fight { arena, target }
    } else {
        match *info.result {
            EffectResult::AbilityEffect(ability) => executed(
                arena,
                ability.attacker,
                ability.name,
                target,
                ability.data,
                now,
                (depth - 1) as nat,
            ).1,
            _ => upsert(arena, target, landed(info, now), now, (depth - 1) as nat),
        }
    }
}

/// The fight after both of Vi's counters were upserted on the target: the
/// one that ends in damage, then the one that ends in shredded armor.
pub open spec fn dented(
    arena: Seq<Option<ChampionModel>>,
    target: ChampionModel,
    attacker: ChampionHandle,
    now: Fixed,
    depth: nat,
) -> Fight
    decreases depth, 2int,
{
    if !holds(arena, attacker) {
        Fight { arena, target }
    } else {
        let rank = arena[attacker.index as int]->0.ranks[1];
        let first = upsert(
            arena,
            target,
            counter_for(denting_damage(attacker, rank), DENTING_BLOWS_SECONDS, now),
            now,
            depth,
        );
        upsert(
            first.arena,
            first.target,
            counter_for(denting_armor(), DENTING_BLOWS_SECONDS, now),
            now,
            depth,
        )
    }
}

/// The fight after `ability` of the champion at `attacker` took place:
/// the target takes its damage, and one of Vi's hits counts toward her
/// third. An ability without damage for its rank does nothing.
pub open spec fn performed(
    arena: Seq<Option<ChampionModel>>,
    target: ChampionModel,
    attacker: ChampionHandle,
    ability: Ability,
    data: CastingData,
    now: Fixed,
    depth: nat,
) -> Fight
    decreases depth, 3int,
{
    if !holds(arena, attacker) {
        Fight { arena, target }
    } else {
        let champion = arena[attacker.index as int]->0;
        match ability.damage(champion, target, data) {
            None => Fight { arena, target },
            Some(raw) => {
                let hurt = target.damaged(champion, raw, now);
                if ability.is_denting() {
                    dented(arena, hurt, attacker, now, depth)
                } else {
                    Fight { arena, target: hurt }
                }
            },
        }
    }
}

/// The fight after the first `n` of `follow_ups` were executed, in their
/// order.
pub open spec fn fired(
    arena: Seq<Option<ChampionModel>>,
    target: ChampionModel,
    follow_ups: Seq<AbilityEffect>,
    now: Fixed,
    depth: nat,
    n: nat,
) -> Fight
    decreases depth, 4int, n,
{
    if n == 0 || depth == 0 {
        Fight { arena, target }
    } else {
        let before = fired(arena, target, follow_ups, now, depth, (n - 1) as nat);
        executed(
            before.arena,
            follow_ups[n - 1].attacker,
            follow_ups[n - 1].name,
            before.target,
            follow_ups[n - 1].data,
            now,
            (depth - 1) as nat,
        ).1
    }
}

/// Executing ability `name` of the champion at `attacker` on `target` at
/// `now`: the damage dealt and the fight afterwards.
///
/// Nothing happens, and no damage is reported, where the attacker is gone
/// or the nesting limit is reached. Otherwise the attacker is prepared
/// ([`ChampionModel::prepared`]), the ability takes place
/// ([`performed`]; nothing where no ability of that name is known), and the
/// abilities that the attacker's empowered attacks released follow
/// ([`fired`]). The damage dealt is the health that the target lost.
pub open spec fn executed(
    arena: Seq<Option<ChampionModel>>,
    attacker: ChampionHandle,
    name: AbilityName,
    target: ChampionModel,
    data: CastingData,
    now: Fixed,
    depth: nat,
) -> (Option<Fixed>, Fight)
    decreases depth, 5int,
{
    if depth == 0 || !holds(arena, attacker) {
        (None, Fight { arena, target })
    } else {
        let champion = arena[attacker.index as int]->0;
        let prepared = champion.prepared(attacker, name, now);
        let follow_ups = champion.follow_ups(attacker, name, now);
        let ready = arena.update(attacker.index as int, Some(prepared));
        let after = match prepared.ability_of(name) {
            Some(ability) => performed(ready, target, attacker, ability, data, now, depth),
            None => Fight { arena: ready, target },
        };
        let end = fired(after.arena, after.target, follow_ups, now, depth, follow_ups.len());
        (Some(clamp(target.current_health - end.target.current_health) as i64), end)
    }
}

/// No two of `effects` have the same identity: of the effects on one
/// combatant, at most one has a given name and kind.
pub open spec fn distinct(effects: Seq<EffectData>) -> bool {
    forall|i: int, j: int|
        0 <= i < j < effects.len() ==> !(#[trigger] effects[i]).same_identity(#[trigger] effects[j])
}

/// Every champion in the arena has effects of distinct identities.
pub open spec fn all_distinct(arena: Seq<Option<ChampionModel>>) -> bool {
    forall|i: int|
        0 <= i < arena.len() && (#[trigger] arena[i]) is Some ==> distinct(arena[i]->0.effects)
}

/// The arena `after` has a champion wherever `before` has one, and nowhere
/// else.
pub open spec fn same_places(before: Seq<Option<ChampionModel>>, after: Seq<Option<ChampionModel>>) -> bool {
    &&& before.len() == after.len()
    &&& forall|i: int| 0 <= i < before.len() ==> ((#[trigger] before[i]) is Some <==> after[i] is Some)
}

/// The fight after the first `n` abilities of `combo` were executed by the
/// champion at `attacker`, in their order.
pub open spec fn combo_done(
    arena: Seq<Option<ChampionModel>>,
    attacker: ChampionHandle,
    combo: Seq<(AbilityName, CastingData)>,
    target: ChampionModel,
    now: Fixed,
    n: nat,
) -> Fight
    decreases n,
{
    if n == 0 {
        Fight { arena, target }
    } else {
        let before = combo_done(arena, attacker, combo, target, now, (n - 1) as nat);
        executed(
            before.arena,
            attacker,
            combo[n - 1].0,
            before.target,
            combo[n - 1].1,
            now,
            MAX_NESTING as nat,
        ).1
    }
}

} // verus!
