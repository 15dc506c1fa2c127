//! What holds of effects and abilities whatever the values.
use crate::champions::fight::all_distinct;
use crate::champions::fight::all_released;
use crate::champions::fight::all_spent;
use crate::champions::fight::combo_done;
use crate::champions::fight::counter_for;
use crate::champions::fight::dented;
use crate::champions::fight::distinct;
use crate::champions::fight::denting_armor;
use crate::champions::fight::denting_damage;
use crate::champions::fight::executed;
use crate::champions::fight::find_same;
use crate::champions::fight::fired;
use crate::champions::fight::granted;
use crate::champions::champion::holds;
use crate::champions::fight::landed;
use crate::champions::fight::lapsed_or_absent;
use crate::champions::fight::later;
use crate::champions::fight::none_ready;
use crate::champions::fight::performed;
use crate::champions::fight::ready;
use crate::champions::fight::released;
use crate::champions::fight::same_places;
use crate::champions::fight::set_off;
use crate::champions::fight::set_off_by;
use crate::champions::fight::spent;
use crate::champions::fight::upsert;
use crate::champions::fight::upserted;
use crate::champions::champion::Ability;
use crate::champions::champion::AbilityName;
use crate::champions::champion::CastingData;
use crate::champions::champion::ChampionHandle;
use crate::champions::champion::ChampionModel;
use crate::champions::fight::Fight;
use crate::champions::fight::DENTING_BLOWS_SECONDS;
use crate::champions::fight::MAX_NESTING;
use crate::fixed::clamp;
use crate::fixed::Fixed;
use crate::item_effects::OnHit;
use crate::item_effects::OnHitActivation;
use crate::target::AbilityEffect;
use crate::target::EffectData;
use crate::target::EffectName;
use crate::target::EffectResult;
use crate::target::EmpowerState;
use crate::target::ThreeHit;
use crate::target::ThreeHitApplyInfo;
use vstd::prelude::*;

verus! {

/// No effect among `effects` has the identity of `effect`.
pub open spec fn absent(effects: Seq<EffectData>, effect: EffectData) -> bool {
    forall|i: int| 0 <= i < effects.len() ==> !(#[trigger] effects[i]).same_identity(effect)
}

/// [`find_same`] finds the first effect of the identity at or after `from`,
/// and none before the place it gives.
pub proof fn lemma_find_same(effects: Seq<EffectData>, effect: EffectData, from: int)
    requires
        0 <= from <= effects.len(),
    ensures
        from <= find_same(effects, effect, from) <= effects.len(),
        find_same(effects, effect, from) < effects.len() ==> effects[find_same(
            effects,
            effect,
            from,
        )].same_identity(effect),
        forall|i: int|
            from <= i < find_same(effects, effect, from) ==> !(#[trigger] effects[i]).same_identity(
                effect,
            ),
    decreases effects.len() - from,
{
    if from < effects.len() && !effects[from].same_identity(effect) {
        lemma_find_same(effects, effect, from + 1);
    }
}

/// Three hits: a counter upserted where none of its identity stood is
/// added as it is; a second upsert while it is valid leaves it with one hit
/// counted and the later expiry; a third while it is still valid takes it
/// away and sets off what the first counter ends in.
pub proof fn lemma_third_hit_sets_off(
    arena: Seq<Option<ChampionModel>>,
    target: ChampionModel,
    first: EffectData,
    second: EffectData,
    third: EffectData,
    times: (Fixed, Fixed, Fixed),
    depth: nat,
)
    requires
        first.result matches EffectResult::ThreeHit(counter) && counter.hit_count == 0,
        second.same_identity(first),
        third.same_identity(first),
        absent(target.effects, first),
        first.expiry >= times.1,
        later(first.expiry, second.expiry) >= times.2,
    ensures
        ({
            let pending = first.result->ThreeHit_0.on_third_hit;
            let counted = EffectData {
                expiry: later(first.expiry, second.expiry),
                unique_name: first.unique_name,
                result: EffectResult::ThreeHit(ThreeHit { hit_count: 1, on_third_hit: pending }),
            };
            let one = upsert(arena, target, first, times.0, depth);
            let two = upsert(one.arena, one.target, second, times.1, depth);
            let three = upsert(two.arena, two.target, third, times.2, depth);
            &&& one == Fight { arena, target: target.with_effects(target.effects.push(first)) }
            &&& two == Fight { arena, target: target.with_effects(target.effects.push(counted)) }
            &&& three == set_off(arena, target, pending, times.2, depth)
        }),
{
    let pending = first.result->ThreeHit_0.on_third_hit;
    let counted = EffectData {
        expiry: later(first.expiry, second.expiry),
        unique_name: first.unique_name,
        result: EffectResult::ThreeHit(ThreeHit { hit_count: 1, on_third_hit: pending }),
    };
    let n = target.effects.len() as int;
    lemma_find_same(target.effects, first, 0);
    assert(find_same(target.effects, first, 0) == n);
    let after_one = target.effects.push(first);
    lemma_find_same(after_one, second, 0);
    assert(after_one[n].same_identity(second));
    assert(forall|i: int| 0 <= i < n ==> after_one[i] == target.effects[i]);
    assert(find_same(after_one, second, 0) == n);
    assert(after_one.remove(n) =~= target.effects);
    let after_two = target.effects.push(counted);
    lemma_find_same(after_two, third, 0);
    assert(after_two[n].same_identity(third));
    assert(forall|i: int| 0 <= i < n ==> after_two[i] == target.effects[i]);
    assert(find_same(after_two, third, 0) == n);
    assert(after_two.remove(n) =~= target.effects);
    assert(target.with_effects(target.effects) == target);
}

/// The effects of a champion without on-hit effects of `mode` stay as they
/// are when those are granted.
pub proof fn lemma_nothing_granted(
    effects: Seq<EffectData>,
    on_hits: Seq<OnHit>,
    handle: ChampionHandle,
    mode: OnHitActivation,
    now: Fixed,
    n: nat,
)
    requires
        n <= on_hits.len(),
        forall|i: int| 0 <= i < on_hits.len() ==> (#[trigger] on_hits[i]).mode != mode,
    ensures
        granted(effects, on_hits, handle, mode, now, n) == effects,
    decreases n,
{
    if n > 0 {
        lemma_nothing_granted(effects, on_hits, handle, mode, now, (n - 1) as nat);
    }
}

/// An empowered attack is spent once: after a basic attack at `now`, a
/// basic attack at that time or later releases nothing from the same
/// effects.
pub proof fn lemma_spent_releases_nothing(effects: Seq<EffectData>, now: Fixed, later_on: Fixed, n: nat)
    requires
        now <= later_on,
        n <= effects.len(),
    ensures
        all_released(all_spent(effects, now), later_on, n) == Seq::<AbilityEffect>::empty(),
    decreases n,
{
    if n > 0 {
        lemma_spent_releases_nothing(effects, now, later_on, (n - 1) as nat);
        assert(all_spent(effects, now)[n - 1] == spent(effects[n - 1], now));
    }
}

/// A second basic attack gets nothing from the empowered attacks that the
/// first one spent: for a champion whose items grant nothing on basic
/// attacks, the basic attack that follows one at `now` has no follow-ups.
pub proof fn lemma_second_attack_is_plain(
    champion: ChampionModel,
    handle: ChampionHandle,
    now: Fixed,
    later_on: Fixed,
)
    requires
        now <= later_on,
        forall|i: int|
            0 <= i < champion.on_hit_item_effects.len() ==> (
            #[trigger] champion.on_hit_item_effects[i]).mode != OnHitActivation::Auto,
    ensures
        champion.prepared(handle, AbilityName::AUTO, now).follow_ups(
            handle,
            AbilityName::AUTO,
            later_on,
        ) == Seq::<AbilityEffect>::empty(),
{
    let on_hits = champion.on_hit_item_effects;
    lemma_nothing_granted(champion.effects, on_hits, handle, OnHitActivation::Auto, now, on_hits.len());
    let first = champion.prepared(handle, AbilityName::AUTO, now);
    assert(first.effects == all_spent(champion.effects, now));
    lemma_nothing_granted(first.effects, on_hits, handle, OnHitActivation::Auto, later_on, on_hits.len());
    lemma_spent_releases_nothing(champion.effects, now, later_on, champion.effects.len());
}

/// An empowered attack fires once. For a champion without effects whose
/// one item grants an empowered attack on active spells: after a spell at
/// `cast`, the basic attack at `attack`, while the grant is valid,
/// releases the item's ability and nothing else, and a basic attack after
/// that releases nothing.
pub proof fn lemma_empowered_attack_fires_once(
    champion: ChampionModel,
    handle: ChampionHandle,
    on_hit: OnHit,
    times: (Fixed, Fixed, Fixed),
)
    requires
        champion.effects == Seq::<EffectData>::empty(),
        champion.on_hit_item_effects == seq![on_hit],
        on_hit.mode == OnHitActivation::ActiveSpell,
        on_hit.expiry_at(times.0) >= times.1,
        times.1 <= times.2,
    ensures
        ({
            let after_spell = champion.prepared(handle, AbilityName::Q, times.0);
            let after_attack = after_spell.prepared(handle, AbilityName::AUTO, times.1);
            &&& after_spell.follow_ups(handle, AbilityName::AUTO, times.1) == seq![
                AbilityEffect {
                    attacker: handle,
                    name: on_hit.name,
                    data: CastingData { charge: 0, rank: 0 },
                },
            ]
            &&& after_attack.follow_ups(handle, AbilityName::AUTO, times.2) == Seq::<
                AbilityEffect,
            >::empty()
        }),
{
    let on_hits = champion.on_hit_item_effects;
    let grant = on_hit.granted_effect(handle, times.0);
    let after_spell = champion.prepared(handle, AbilityName::Q, times.0);
    assert(granted(champion.effects, on_hits, handle, OnHitActivation::ActiveSpell, times.0, 0)
        == champion.effects);
    assert(granted(champion.effects, on_hits, handle, OnHitActivation::ActiveSpell, times.0, 1)
        == upserted(champion.effects, grant, times.0));
    assert(after_spell.effects =~= seq![grant]);
    assert(after_spell.on_hit_item_effects == on_hits);
    lemma_nothing_granted(after_spell.effects, on_hits, handle, OnHitActivation::Auto, times.1, 1);
    assert(all_released(seq![grant], times.1, 0) == Seq::<AbilityEffect>::empty());
    assert(all_released(seq![grant], times.1, 1) =~= seq![
        AbilityEffect { attacker: handle, name: on_hit.name, data: CastingData { charge: 0, rank: 0 } },
    ]);
    lemma_second_attack_is_plain(after_spell, handle, times.1, times.2);
}

/// An upsert keeps identities distinct: the effect that comes in takes the
/// place of the one it shares its identity with.
pub proof fn lemma_upserted_distinct(effects: Seq<EffectData>, effect: EffectData, now: Fixed)
    requires
        distinct(effects),
    ensures
        distinct(upserted(effects, effect, now)),
{
    let place = find_same(effects, effect, 0);
    lemma_find_same(effects, effect, 0);
    let after = upserted(effects, effect, now);
    if place >= effects.len() {
        assert forall|i: int, j: int| 0 <= i < j < after.len() implies !(#[trigger] after[i]).same_identity(
            #[trigger] after[j],
        ) by {
            if j < effects.len() {
                assert(after[i] == effects[i] && after[j] == effects[j]);
            } else {
                assert(after[i] == effects[i]);
            }
        }
    } else {
        let rest = effects.remove(place);
        assert forall|i: int| 0 <= i < rest.len() implies !(#[trigger] rest[i]).same_identity(effect) by {
            if i < place {
                assert(rest[i] == effects[i]);
            } else {
                assert(rest[i] == effects[i + 1]);
                assert(!effects[place].same_identity(effects[i + 1]));
            }
        }
        assert forall|i: int, j: int| 0 <= i < j < rest.len() implies !(#[trigger] rest[i]).same_identity(
            #[trigger] rest[j],
        ) by {
            let from_i = if i < place { i } else { i + 1 };
            let from_j = if j < place { j } else { j + 1 };
            assert(rest[i] == effects[from_i] && rest[j] == effects[from_j]);
        }
        assert forall|i: int, j: int| 0 <= i < j < after.len() implies !(#[trigger] after[i]).same_identity(
            #[trigger] after[j],
        ) by {
            if j < rest.len() {
                assert(after[i] == rest[i] && after[j] == rest[j]);
            } else {
                assert(after[i] == rest[i]);
                assert(after[j].same_identity(effect));
            }
        }
    }
}

/// Granting on-hit effects keeps identities distinct.
pub proof fn lemma_granted_distinct(
    effects: Seq<EffectData>,
    on_hits: Seq<OnHit>,
    handle: ChampionHandle,
    mode: OnHitActivation,
    now: Fixed,
    n: nat,
)
    requires
        distinct(effects),
    ensures
        distinct(granted(effects, on_hits, handle, mode, now, n)),
    decreases n,
{
    if n > 0 {
        lemma_granted_distinct(effects, on_hits, handle, mode, now, (n - 1) as nat);
        lemma_upserted_distinct(
            granted(effects, on_hits, handle, mode, now, (n - 1) as nat),
            on_hits[n - 1].granted_effect(handle, now),
            now,
        );
    }
}

/// Spending empowered attacks keeps identities distinct: an effect keeps
/// its name and its kind.
pub proof fn lemma_spent_distinct(effects: Seq<EffectData>, now: Fixed)
    requires
        distinct(effects),
    ensures
        distinct(all_spent(effects, now)),
{
    let after = all_spent(effects, now);
    assert forall|i: int, j: int| 0 <= i < j < after.len() implies !(#[trigger] after[i]).same_identity(
        #[trigger] after[j],
    ) by {
        assert(after[i] == spent(effects[i], now));
        assert(after[j] == spent(effects[j], now));
        assert(!effects[i].same_identity(effects[j]));
    }
}

/// Preparing an attacker keeps the identities of its effects distinct.
pub proof fn lemma_prepared_distinct(champion: ChampionModel, handle: ChampionHandle, name: AbilityName, now: Fixed)
    requires
        distinct(champion.effects),
    ensures
        distinct(champion.prepared(handle, name, now).effects),
{
    let on_hits = champion.on_hit_item_effects;
    lemma_granted_distinct(champion.effects, on_hits, handle, OnHitActivation::Auto, now, on_hits.len());
    lemma_granted_distinct(
        champion.effects,
        on_hits,
        handle,
        OnHitActivation::ActiveSpell,
        now,
        on_hits.len(),
    );
    lemma_spent_distinct(champion.with_grants(handle, name, now).effects, now);
}

/// Whatever an upsert sets off, the champions keep their places, and
/// effects of distinct identities stay so, on the target and in the arena.
pub proof fn lemma_upsert_keeps_order(
    arena: Seq<Option<ChampionModel>>,
    target: ChampionModel,
    effect: EffectData,
    now: Fixed,
    depth: nat,
)
    ensures
        same_places(arena, upsert(arena, target, effect, now, depth).arena),
        distinct(target.effects) ==> distinct(upsert(arena, target, effect, now, depth).target.effects),
        all_distinct(arena) ==> all_distinct(upsert(arena, target, effect, now, depth).arena),
    decreases depth, 1int,
{
    if distinct(target.effects) {
        lemma_upserted_distinct(target.effects, effect, now);
    }
    let after = target.with_effects(upserted(target.effects, effect, now));
    match set_off_by(target.effects, effect, now) {
        Some(info) => {
            lemma_set_off_keeps_order(arena, after, info, now, depth);
        },
        None => {},
    }
}

/// Whatever a third hit sets off, the champions keep their places, and
/// effects of distinct identities stay so, on the target and in the arena.
pub proof fn lemma_set_off_keeps_order(
    arena: Seq<Option<ChampionModel>>,
    target: ChampionModel,
    info: ThreeHitApplyInfo,
    now: Fixed,
    depth: nat,
)
    ensures
        same_places(arena, set_off(arena, target, info, now, depth).arena),
        distinct(target.effects) ==> distinct(set_off(arena, target, info, now, depth).target.effects),
        all_distinct(arena) ==> all_distinct(set_off(arena, target, info, now, depth).arena),
    decreases depth, 0int,
{
    if depth > 0 {
        match *info.result {
            EffectResult::AbilityEffect(ability) => {
                lemma_executed_keeps_order(
                    arena,
                    ability.attacker,
                    ability.name,
                    target,
                    ability.data,
                    now,
                    (depth - 1) as nat,
                );
            },
            _ => {
                lemma_upsert_keeps_order(arena, target, landed(info, now), now, (depth - 1) as nat);
            },
        }
    }
}

/// Counting one of Vi's hits keeps the champions in their places and
/// identities distinct: on the target if they were so on the target, in the
/// arena if they were so in the arena.
pub proof fn lemma_dented_keeps_order(
    arena: Seq<Option<ChampionModel>>,
    target: ChampionModel,
    attacker: ChampionHandle,
    now: Fixed,
    depth: nat,
)
    ensures
        same_places(arena, dented(arena, target, attacker, now, depth).arena),
        distinct(target.effects) ==> distinct(dented(arena, target, attacker, now, depth).target.effects),
        all_distinct(arena) ==> all_distinct(dented(arena, target, attacker, now, depth).arena),
    decreases depth, 2int,
{
    if holds(arena, attacker) {
        let rank = arena[attacker.index as int]->0.ranks[1];
        let counter = counter_for(denting_damage(attacker, rank), DENTING_BLOWS_SECONDS, now);
        lemma_upsert_keeps_order(arena, target, counter, now, depth);
        let first = upsert(arena, target, counter, now, depth);
        lemma_upsert_keeps_order(
            first.arena,
            first.target,
            counter_for(denting_armor(), DENTING_BLOWS_SECONDS, now),
            now,
            depth,
        );
    }
}

/// An ability that takes place keeps the champions in their places and
/// identities distinct: on the target if they were so on the target, in the
/// arena if they were so in the arena.
pub proof fn lemma_performed_keeps_order(
    arena: Seq<Option<ChampionModel>>,
    target: ChampionModel,
    attacker: ChampionHandle,
    ability: Ability,
    data: CastingData,
    now: Fixed,
    depth: nat,
)
    ensures
        same_places(arena, performed(arena, target, attacker, ability, data, now, depth).arena),
        distinct(target.effects) ==> distinct(performed(arena, target, attacker, ability, data, now, depth).target.effects),
        all_distinct(arena) ==> all_distinct(performed(arena, target, attacker, ability, data, now, depth).arena),
    decreases depth, 3int,
{
    if holds(arena, attacker) {
        let champion = arena[attacker.index as int]->0;
        match ability.damage(champion, target, data) {
            None => {},
            Some(raw) => {
                if ability.is_denting() {
                    lemma_dented_keeps_order(arena, target.damaged(champion, raw, now), attacker, now, depth);
                }
            },
        }
    }
}

/// Abilities that empowered attacks released keep the champions in their
/// places and identities distinct: on the target if they were so on the
/// target, in the arena if they were so in the arena.
pub proof fn lemma_fired_keeps_order(
    arena: Seq<Option<ChampionModel>>,
    target: ChampionModel,
    follow_ups: Seq<AbilityEffect>,
    now: Fixed,
    depth: nat,
    n: nat,
)
    ensures
        same_places(arena, fired(arena, target, follow_ups, now, depth, n).arena),
        distinct(target.effects) ==> distinct(fired(arena, target, follow_ups, now, depth, n).target.effects),
        all_distinct(arena) ==> all_distinct(fired(arena, target, follow_ups, now, depth, n).arena),
    decreases depth, 4int, n,
{
    if n > 0 && depth > 0 {
        lemma_fired_keeps_order(arena, target, follow_ups, now, depth, (n - 1) as nat);
        let before = fired(arena, target, follow_ups, now, depth, (n - 1) as nat);
        lemma_executed_keeps_order(
            before.arena,
            follow_ups[n - 1].attacker,
            follow_ups[n - 1].name,
            before.target,
            follow_ups[n - 1].data,
            now,
            (depth - 1) as nat,
        );
    }
}

/// Executing an ability keeps the champions in their places and
/// identities distinct: where at most one effect on a combatant had a
/// given name and kind before, that is so afterwards, for the target by
/// itself and for the arena by itself.
pub proof fn lemma_executed_keeps_order(
    arena: Seq<Option<ChampionModel>>,
    attacker: ChampionHandle,
    name: AbilityName,
    target: ChampionModel,
    data: CastingData,
    now: Fixed,
    depth: nat,
)
    ensures
        same_places(arena, executed(arena, attacker, name, target, data, now, depth).1.arena),
        distinct(target.effects) ==> distinct(executed(arena, attacker, name, target, data, now, depth).1.target.effects),
        all_distinct(arena) ==> all_distinct(executed(arena, attacker, name, target, data, now, depth).1.arena),
    decreases depth, 5int,
{
    if depth > 0 && holds(arena, attacker) {
        let champion = arena[attacker.index as int]->0;
        let prepared = champion.prepared(attacker, name, now);
        let follow_ups = champion.follow_ups(attacker, name, now);
        let ready = arena.update(attacker.index as int, Some(prepared));
        if all_distinct(arena) {
            lemma_prepared_distinct(champion, attacker, name, now);
            assert forall|i: int| 0 <= i < ready.len() && (#[trigger] ready[i]) is Some implies distinct(
                ready[i]->0.effects,
            ) by {
                if i != attacker.index as int {
                    assert(ready[i] == arena[i]);
                }
            }
        }
        assert(same_places(arena, ready));
        let after = match prepared.ability_of(name) {
            Some(ability) => performed(ready, target, attacker, ability, data, now, depth),
            None => Fight { arena: ready, target },
        };
        match prepared.ability_of(name) {
            Some(ability) => {
                lemma_performed_keeps_order(ready, target, attacker, ability, data, now, depth);
            },
            None => {},
        }
        lemma_fired_keeps_order(after.arena, after.target, follow_ups, now, depth, follow_ups.len());
    }
}

/// A combination keeps the champions in their places and
/// identities distinct: on the target if they were so on the target, in the
/// arena if they were so in the arena.
pub proof fn lemma_combo_keeps_order(
    arena: Seq<Option<ChampionModel>>,
    attacker: ChampionHandle,
    combo: Seq<(AbilityName, CastingData)>,
    target: ChampionModel,
    now: Fixed,
    n: nat,
)
    ensures
        same_places(arena, combo_done(arena, attacker, combo, target, now, n).arena),
        distinct(target.effects) ==> distinct(combo_done(arena, attacker, combo, target, now, n).target.effects),
        all_distinct(arena) ==> all_distinct(combo_done(arena, attacker, combo, target, now, n).arena),
    decreases n,
{
    if n > 0 {
        lemma_combo_keeps_order(arena, attacker, combo, target, now, (n - 1) as nat);
        let before = combo_done(arena, attacker, combo, target, now, (n - 1) as nat);
        lemma_executed_keeps_order(
            before.arena,
            attacker,
            combo[n - 1].0,
            before.target,
            combo[n - 1].1,
            now,
            MAX_NESTING as nat,
        );
    }
}

/// A valid effect that is no counter stays as it is when an effect of its
/// identity is upserted: payload and expiry are its own, and nothing is
/// set off.
pub proof fn lemma_found_effect_stays(effects: Seq<EffectData>, effect: EffectData, now: Fixed)
    requires
        find_same(effects, effect, 0) < effects.len(),
        effects[find_same(effects, effect, 0)].valid_at(now),
        !(effects[find_same(effects, effect, 0)].result is ThreeHit),
    ensures
        upserted(effects, effect, now) == effects.remove(find_same(effects, effect, 0)).push(
            effects[find_same(effects, effect, 0)],
        ),
        set_off_by(effects, effect, now) is None,
{
    lemma_find_same(effects, effect, 0);
}

/// Among effects of distinct identities, the one that has the identity of
/// `effect` is the one that an upsert of `effect` finds.
pub proof fn lemma_found_is_the_one(effects: Seq<EffectData>, effect: EffectData, record: EffectData)
    requires
        distinct(effects),
        effects.contains(record),
        record.same_identity(effect),
    ensures
        find_same(effects, effect, 0) < effects.len(),
        effects[find_same(effects, effect, 0)] == record,
{
    lemma_find_same(effects, effect, 0);
    let i = choose|i: int| 0 <= i < effects.len() && effects[i] == record;
    let place = find_same(effects, effect, 0);
    if place != i {
        assert(place < i);
        assert(!effects[place].same_identity(effects[i]));
    }
}

/// A valid effect that is no counter survives every upsert.
pub proof fn lemma_valid_effect_survives(
    effects: Seq<EffectData>,
    effect: EffectData,
    now: Fixed,
    record: EffectData,
)
    requires
        effects.contains(record),
        record.valid_at(now),
        !(record.result is ThreeHit),
    ensures
        upserted(effects, effect, now).contains(record),
{
    lemma_find_same(effects, effect, 0);
    let i = choose|i: int| 0 <= i < effects.len() && effects[i] == record;
    let place = find_same(effects, effect, 0);
    let after = upserted(effects, effect, now);
    if place >= effects.len() {
        assert(after[i] == record);
    } else if place == i {
        assert(after[after.len() - 1] == record);
    } else {
        let rest = effects.remove(place);
        let at = if i < place { i } else { i - 1 };
        assert(rest[at] == record);
        assert(after[at] == record);
    }
}

/// Every effect after an upsert was there before, or is a counter of the
/// identity of what was upserted, or is what was upserted; the last only
/// where no valid effect of that identity was found.
pub proof fn lemma_upserted_from(effects: Seq<EffectData>, effect: EffectData, now: Fixed, record: EffectData)
    requires
        upserted(effects, effect, now).contains(record),
    ensures
        effects.contains(record) || (record.result is ThreeHit && record.same_identity(effect)) || (
        record == effect && (find_same(effects, effect, 0) >= effects.len() || !effects[find_same(
            effects,
            effect,
            0,
        )].valid_at(now))),
{
    lemma_find_same(effects, effect, 0);
    let after = upserted(effects, effect, now);
    let i = choose|i: int| 0 <= i < after.len() && after[i] == record;
    let place = find_same(effects, effect, 0);
    if place >= effects.len() {
        if i < effects.len() {
            assert(effects[i] == record);
        }
    } else {
        let rest = effects.remove(place);
        if i < rest.len() {
            let at = if i < place { i } else { i + 1 };
            assert(rest[i] == effects[at]);
            assert(effects[at] == record);
        } else if effects[place].valid_at(now) {
            if !(effects[place].result is ThreeHit) {
                assert(effects[place] == record);
            }
        }
    }
}

/// What is upserted lands as it is where no valid effect of its identity
/// stands.
pub proof fn lemma_effect_lands(effects: Seq<EffectData>, effect: EffectData, now: Fixed)
    requires
        lapsed_or_absent(effects, effect, now),
    ensures
        upserted(effects, effect, now).contains(effect),
{
    lemma_find_same(effects, effect, 0);
    let after = upserted(effects, effect, now);
    assert(after[after.len() - 1] == effect);
}

/// An upsert of another identity leaves an identity without valid effects
/// as it is.
pub proof fn lemma_stays_lapsed_or_absent(
    effects: Seq<EffectData>,
    effect: EffectData,
    now: Fixed,
    other: EffectData,
)
    requires
        lapsed_or_absent(effects, other, now),
        !effect.same_identity(other),
    ensures
        lapsed_or_absent(upserted(effects, effect, now), other, now),
{
    let after = upserted(effects, effect, now);
    assert forall|i: int| 0 <= i < after.len() && (#[trigger] after[i]).same_identity(other) implies !after[i].valid_at(
        now,
    ) by {
        assert(after.contains(after[i]));
        lemma_upserted_from(effects, effect, now, after[i]);
        if effects.contains(after[i]) {
            let j = choose|j: int| 0 <= j < effects.len() && effects[j] == after[i];
            assert(effects[j].same_identity(other));
        }
    }
}

/// A valid effect that is no counter survives the granting of on-hit
/// effects.
pub proof fn lemma_granted_keeps(
    effects: Seq<EffectData>,
    on_hits: Seq<OnHit>,
    handle: ChampionHandle,
    mode: OnHitActivation,
    now: Fixed,
    n: nat,
    record: EffectData,
)
    requires
        effects.contains(record),
        record.valid_at(now),
        !(record.result is ThreeHit),
    ensures
        granted(effects, on_hits, handle, mode, now, n).contains(record),
    decreases n,
{
    if n > 0 {
        lemma_granted_keeps(effects, on_hits, handle, mode, now, (n - 1) as nat, record);
        if on_hits[n - 1].mode == mode {
            lemma_valid_effect_survives(
                granted(effects, on_hits, handle, mode, now, (n - 1) as nat),
                on_hits[n - 1].granted_effect(handle, now),
                now,
                record,
            );
        }
    }
}

/// A basic attack releases one ability for each empowered attack that is
/// ready, in their order, and nothing else.
pub proof fn lemma_released_one_each(effects: Seq<EffectData>, now: Fixed, n: nat)
    requires
        n <= effects.len(),
    ensures
        all_released(effects, now, n) == effects.take(n as int).filter(
            |e: EffectData| ready(e, now),
        ).map_values(|e: EffectData| released(e, now)->0),
    decreases n,
{
    let is_ready = |e: EffectData| ready(e, now);
    let ability = |e: EffectData| released(e, now)->0;
    let prefix = effects.take(n as int);
    if n == 0 {
        assert(prefix.filter(is_ready) =~= Seq::<EffectData>::empty()) by {
            reveal(Seq::filter);
        }
        assert(all_released(effects, now, n) =~= prefix.filter(is_ready).map_values(ability));
    } else {
        lemma_released_one_each(effects, now, (n - 1) as nat);
        let shorter = effects.take(n - 1);
        assert(prefix.drop_last() =~= shorter);
        assert(prefix.last() == effects[n - 1]);
        assert(prefix.filter(is_ready) == if is_ready(effects[n - 1]) {
            shorter.filter(is_ready).push(effects[n - 1])
        } else {
            shorter.filter(is_ready)
        }) by {
            reveal(Seq::filter);
        }
        assert(all_released(effects, now, n) =~= prefix.filter(is_ready).map_values(ability));
    }
}

/// The ability of an empowered attack that is ready is among those that a
/// basic attack releases.
pub proof fn lemma_ready_is_released(effects: Seq<EffectData>, now: Fixed, n: nat, i: int)
    requires
        0 <= i < n <= effects.len(),
        ready(effects[i], now),
    ensures
        all_released(effects, now, n).contains(released(effects[i], now)->0),
    decreases n,
{
    let before = all_released(effects, now, (n - 1) as nat);
    let after = all_released(effects, now, n);
    if i == n - 1 {
        assert(after[after.len() - 1] == released(effects[i], now)->0);
    } else {
        lemma_ready_is_released(effects, now, (n - 1) as nat, i);
        let j = choose|j: int| 0 <= j < before.len() && before[j] == released(effects[i], now)->0;
        assert(after[j] == before[j]);
    }
}

/// Where no empowered attack is ready, a basic attack releases nothing.
pub proof fn lemma_none_ready_releases_nothing(effects: Seq<EffectData>, now: Fixed, n: nat)
    requires
        n <= effects.len(),
        none_ready(effects, now),
    ensures
        all_released(effects, now, n) == Seq::<AbilityEffect>::empty(),
    decreases n,
{
    if n > 0 {
        lemma_none_ready_releases_nothing(effects, now, (n - 1) as nat);
        assert(!ready(effects[n - 1], now));
    }
}

/// After the on-hit effects of `mode` were granted, the grant of the item
/// at place `k` stands among the effects, where it was valid when granted,
/// no valid effect of its identity stood in its way, and no other item of
/// that mode fires the same ability.
pub proof fn lemma_grant_lands(
    effects: Seq<EffectData>,
    on_hits: Seq<OnHit>,
    handle: ChampionHandle,
    mode: OnHitActivation,
    now: Fixed,
    k: int,
    n: nat,
)
    requires
        0 <= k < on_hits.len(),
        n <= on_hits.len(),
        on_hits[k].mode == mode,
        forall|j: int|
            0 <= j < on_hits.len() && j != k && (#[trigger] on_hits[j]).mode == mode ==> on_hits[j].name
                != on_hits[k].name,
        lapsed_or_absent(effects, on_hits[k].granted_effect(handle, now), now),
        on_hits[k].granted_effect(handle, now).valid_at(now),
    ensures
        n <= k ==> lapsed_or_absent(
            granted(effects, on_hits, handle, mode, now, n),
            on_hits[k].granted_effect(handle, now),
            now,
        ),
        n > k ==> granted(effects, on_hits, handle, mode, now, n).contains(
            on_hits[k].granted_effect(handle, now),
        ),
    decreases n,
{
    let grant = on_hits[k].granted_effect(handle, now);
    if n > 0 {
        lemma_grant_lands(effects, on_hits, handle, mode, now, k, (n - 1) as nat);
        let before = granted(effects, on_hits, handle, mode, now, (n - 1) as nat);
        let this = on_hits[n - 1].granted_effect(handle, now);
        if on_hits[n - 1].mode == mode {
            if n - 1 < k {
                lemma_stays_lapsed_or_absent(before, this, now, grant);
            } else if n - 1 == k {
                lemma_effect_lands(before, grant, now);
            } else {
                lemma_valid_effect_survives(before, this, now, grant);
            }
        }
    }
}

/// The empowered attack that a spell grants fires with the next basic
/// attack, once.
///
/// The champion's effects have distinct identities; its item at place `k`
/// grants an empowered attack on active spells and is its only such item
/// for that ability; no valid effect of the grant's identity stands on the
/// champion when the spell is cast, so that nothing is on cooldown; and the
/// attack comes no earlier than the spell and no later than the grant
/// lasts. Then the grant stands on the champion after the spell; when the
/// attack comes it is still there, the one effect of its identity; the
/// attack releases its ability; and afterwards it is on cooldown, for as
/// long as the item says. With [`lemma_released_one_each`], the one effect
/// releases the ability exactly once.
pub proof fn lemma_granted_attack_fires(
    champion: ChampionModel,
    handle: ChampionHandle,
    k: int,
    spell: AbilityName,
    cast: Fixed,
    attack: Fixed,
)
    requires
        distinct(champion.effects),
        0 <= k < champion.on_hit_item_effects.len(),
        champion.on_hit_item_effects[k].mode == OnHitActivation::ActiveSpell,
        spell == AbilityName::Q || spell == AbilityName::W || spell == AbilityName::E || spell
            == AbilityName::R,
        forall|j: int|
            0 <= j < champion.on_hit_item_effects.len() && j != k && (
            #[trigger] champion.on_hit_item_effects[j]).mode == OnHitActivation::ActiveSpell
                ==> champion.on_hit_item_effects[j].name != champion.on_hit_item_effects[k].name,
        lapsed_or_absent(
            champion.effects,
            champion.on_hit_item_effects[k].granted_effect(handle, cast),
            cast,
        ),
        cast <= attack <= champion.on_hit_item_effects[k].expiry_at(cast),
    ensures
        ({
            let item = champion.on_hit_item_effects[k];
            let grant = item.granted_effect(handle, cast);
            let after_spell = champion.prepared(handle, spell, cast);
            let at_attack = after_spell.with_grants(handle, AbilityName::AUTO, attack).effects;
            let after_attack = after_spell.prepared(handle, AbilityName::AUTO, attack);
            &&& after_spell.effects.contains(grant)
            &&& at_attack.contains(grant)
            &&& distinct(at_attack)
            &&& after_spell.follow_ups(handle, AbilityName::AUTO, attack).contains(
                AbilityEffect {
                    attacker: handle,
                    name: item.name,
                    data: CastingData { charge: 0, rank: 0 },
                },
            )
            &&& after_attack.effects.contains(
                EffectData {
                    expiry: clamp(attack + item.cooldown) as i64,
                    unique_name: EffectName::Ability(item.name),
                    result: EffectResult::EmpowerNextAttack(EmpowerState::Cooldown),
                },
            )
        }),
{
    let on_hits = champion.on_hit_item_effects;
    let item = on_hits[k];
    let grant = item.granted_effect(handle, cast);
    let after_spell = champion.prepared(handle, spell, cast);
    lemma_grant_lands(
        champion.effects,
        on_hits,
        handle,
        OnHitActivation::ActiveSpell,
        cast,
        k,
        on_hits.len(),
    );
    lemma_granted_distinct(
        champion.effects,
        on_hits,
        handle,
        OnHitActivation::ActiveSpell,
        cast,
        on_hits.len(),
    );
    assert(after_spell.effects == granted(
        champion.effects,
        on_hits,
        handle,
        OnHitActivation::ActiveSpell,
        cast,
        on_hits.len(),
    ));
    assert(after_spell.on_hit_item_effects == on_hits);
    let at_attack = after_spell.with_grants(handle, AbilityName::AUTO, attack).effects;
    lemma_granted_keeps(
        after_spell.effects,
        on_hits,
        handle,
        OnHitActivation::Auto,
        attack,
        on_hits.len(),
        grant,
    );
    lemma_granted_distinct(
        after_spell.effects,
        on_hits,
        handle,
        OnHitActivation::Auto,
        attack,
        on_hits.len(),
    );
    let i = choose|i: int| 0 <= i < at_attack.len() && at_attack[i] == grant;
    lemma_ready_is_released(at_attack, attack, at_attack.len(), i);
    let after_attack = after_spell.prepared(handle, AbilityName::AUTO, attack);
    assert(after_attack.effects[i] == spent(grant, attack));
}

/// The cooldown that follows an empowered attack that is ready; zero for
/// every other effect.
pub open spec fn cooldown_of(effect: EffectData) -> Fixed {
    match effect.result {
        EffectResult::EmpowerNextAttack(EmpowerState::Active(_, cooldown)) => cooldown,
        _ => 0,
    }
}

/// Every empowered attack among `effects` that a basic attack at `now`
/// releases has a cooldown that is not negative.
pub open spec fn cools_down(effects: Seq<EffectData>, now: Fixed) -> bool {
    forall|i: int|
        0 <= i < effects.len() && ready(#[trigger] effects[i], now) ==> cooldown_of(effects[i])
            >= 0
}

/// A valid effect among `effects` has the identity of `effect`.
pub open spec fn has_valid(effects: Seq<EffectData>, effect: EffectData, now: Fixed) -> bool {
    exists|i: int|
        0 <= i < effects.len() && (#[trigger] effects[i]).valid_at(now) && effects[i].same_identity(
            effect,
        )
}

/// Each of the first `n` items of `mode` whose grant at `now` is valid has
/// a valid effect of the grant's identity among `effects`.
pub open spec fn covered(
    effects: Seq<EffectData>,
    on_hits: Seq<OnHit>,
    handle: ChampionHandle,
    mode: OnHitActivation,
    now: Fixed,
    n: nat,
) -> bool {
    forall|j: int|
        0 <= j < n && j < on_hits.len() && (#[trigger] on_hits[j]).mode == mode
            && on_hits[j].granted_effect(handle, now).valid_at(now) ==> has_valid(
            effects,
            on_hits[j].granted_effect(handle, now),
            now,
        )
}

/// An identity that has a valid effect, and is not that of a counter, has
/// one after every upsert.
pub proof fn lemma_keeps_valid(effects: Seq<EffectData>, effect: EffectData, now: Fixed, other: EffectData)
    requires
        has_valid(effects, other, now),
        !(other.result is ThreeHit),
    ensures
        has_valid(upserted(effects, effect, now), other, now),
{
    let i = choose|i: int|
        0 <= i < effects.len() && (#[trigger] effects[i]).valid_at(now) && effects[i].same_identity(
            other,
        );
    let record = effects[i];
    assert(effects.contains(record));
    lemma_valid_effect_survives(effects, effect, now, record);
    let after = upserted(effects, effect, now);
    let j = choose|j: int| 0 <= j < after.len() && after[j] == record;
    assert(after[j].valid_at(now) && after[j].same_identity(other));
}

/// After the first round of grants of a basic attack, every ready
/// empowered attack has a cooldown that is not negative, and every item
/// with a valid grant has a valid effect of its identity.
pub proof fn lemma_first_round(
    effects: Seq<EffectData>,
    on_hits: Seq<OnHit>,
    handle: ChampionHandle,
    mode: OnHitActivation,
    now: Fixed,
    n: nat,
)
    requires
        n <= on_hits.len(),
        cools_down(effects, now),
        forall|j: int|
            0 <= j < on_hits.len() && (#[trigger] on_hits[j]).mode == mode ==> on_hits[j].cooldown
                >= 0,
    ensures
        cools_down(granted(effects, on_hits, handle, mode, now, n), now),
        covered(granted(effects, on_hits, handle, mode, now, n), on_hits, handle, mode, now, n),
    decreases n,
{
    if n > 0 {
        lemma_first_round(effects, on_hits, handle, mode, now, (n - 1) as nat);
        let before = granted(effects, on_hits, handle, mode, now, (n - 1) as nat);
        let after = granted(effects, on_hits, handle, mode, now, n);
        if on_hits[n - 1].mode == mode {
            let grant = on_hits[n - 1].granted_effect(handle, now);
            assert forall|i: int| 0 <= i < after.len() && ready(#[trigger] after[i], now) implies cooldown_of(
                after[i],
            ) >= 0 by {
                assert(after.contains(after[i]));
                lemma_upserted_from(before, grant, now, after[i]);
                if before.contains(after[i]) {
                    let at = choose|at: int| 0 <= at < before.len() && before[at] == after[i];
                    assert(ready(before[at], now));
                }
            }
            assert forall|j: int|
                0 <= j < n && j < on_hits.len() && (#[trigger] on_hits[j]).mode == mode
                    && on_hits[j].granted_effect(handle, now).valid_at(now) implies has_valid(
                after,
                on_hits[j].granted_effect(handle, now),
                now,
            ) by {
                if j < n - 1 {
                    lemma_keeps_valid(before, grant, now, on_hits[j].granted_effect(handle, now));
                } else {
                    lemma_find_same(before, grant, 0);
                    assert(after[after.len() - 1].valid_at(now) && after[after.len() - 1].same_identity(
                        grant,
                    ));
                }
            }
        }
    }
}

/// In the second round of grants of a basic attack at the same time,
/// nothing becomes ready: every grant finds a valid effect in its place.
pub proof fn lemma_second_round(
    effects: Seq<EffectData>,
    on_hits: Seq<OnHit>,
    handle: ChampionHandle,
    mode: OnHitActivation,
    now: Fixed,
    n: nat,
)
    requires
        n <= on_hits.len(),
        distinct(effects),
        none_ready(effects, now),
        covered(effects, on_hits, handle, mode, now, on_hits.len()),
    ensures
        distinct(granted(effects, on_hits, handle, mode, now, n)),
        none_ready(granted(effects, on_hits, handle, mode, now, n), now),
        covered(
            granted(effects, on_hits, handle, mode, now, n),
            on_hits,
            handle,
            mode,
            now,
            on_hits.len(),
        ),
    decreases n,
{
    if n > 0 {
        lemma_second_round(effects, on_hits, handle, mode, now, (n - 1) as nat);
        let before = granted(effects, on_hits, handle, mode, now, (n - 1) as nat);
        let after = granted(effects, on_hits, handle, mode, now, n);
        if on_hits[n - 1].mode == mode {
            let grant = on_hits[n - 1].granted_effect(handle, now);
            lemma_upserted_distinct(before, grant, now);
            assert forall|j: int|
                0 <= j < on_hits.len() && (#[trigger] on_hits[j]).mode == mode
                    && on_hits[j].granted_effect(handle, now).valid_at(now) implies has_valid(
                after,
                on_hits[j].granted_effect(handle, now),
                now,
            ) by {
                lemma_keeps_valid(before, grant, now, on_hits[j].granted_effect(handle, now));
            }
            assert forall|i: int| 0 <= i < after.len() implies !ready(#[trigger] after[i], now) by {
                assert(after.contains(after[i]));
                lemma_upserted_from(before, grant, now, after[i]);
                if before.contains(after[i]) {
                    let at = choose|at: int| 0 <= at < before.len() && before[at] == after[i];
                    assert(!ready(before[at], now));
                } else if after[i] == grant && grant.valid_at(now) {
                    assert(has_valid(before, grant, now));
                    let at = choose|at: int|
                        0 <= at < before.len() && (#[trigger] before[at]).valid_at(now)
                            && before[at].same_identity(grant);
                    assert(before.contains(before[at]));
                    lemma_found_is_the_one(before, grant, before[at]);
                }
            }
        }
    }
}

/// A basic attack spends every empowered attack: a second basic attack at
/// the same time releases nothing.
///
/// The champion's effects have distinct identities, and no cooldown is
/// negative: neither that of an empowered attack that is ready nor that of
/// an item that grants one on basic attacks. An item with a negative
/// cooldown would be ready again at once.
pub proof fn lemma_attack_spends_all(champion: ChampionModel, handle: ChampionHandle, now: Fixed)
    requires
        distinct(champion.effects),
        cools_down(champion.effects, now),
        forall|j: int|
            0 <= j < champion.on_hit_item_effects.len() && (
            #[trigger] champion.on_hit_item_effects[j]).mode == OnHitActivation::Auto
                ==> champion.on_hit_item_effects[j].cooldown >= 0,
    ensures
        champion.prepared(handle, AbilityName::AUTO, now).follow_ups(handle, AbilityName::AUTO, now)
            == Seq::<AbilityEffect>::empty(),
        none_ready(
            champion.prepared(handle, AbilityName::AUTO, now).prepared(
                handle,
                AbilityName::AUTO,
                now,
            ).effects,
            now,
        ),
{
    let on_hits = champion.on_hit_item_effects;
    let mode = OnHitActivation::Auto;
    let first = granted(champion.effects, on_hits, handle, mode, now, on_hits.len());
    lemma_first_round(champion.effects, on_hits, handle, mode, now, on_hits.len());
    lemma_granted_distinct(champion.effects, on_hits, handle, mode, now, on_hits.len());
    let spent_all = all_spent(first, now);
    lemma_spent_distinct(first, now);
    assert forall|i: int| 0 <= i < spent_all.len() implies !ready(#[trigger] spent_all[i], now) by {
        assert(spent_all[i] == spent(first[i], now));
    }
    assert forall|j: int|
        0 <= j < on_hits.len() && (#[trigger] on_hits[j]).mode == mode && on_hits[j].granted_effect(
            handle,
            now,
        ).valid_at(now) implies has_valid(spent_all, on_hits[j].granted_effect(handle, now), now) by {
        let grant = on_hits[j].granted_effect(handle, now);
        assert(has_valid(first, grant, now));
        let i = choose|i: int|
            0 <= i < first.len() && (#[trigger] first[i]).valid_at(now) && first[i].same_identity(
                grant,
            );
        assert(spent_all[i] == spent(first[i], now));
        if ready(first[i], now) {
            assert(cooldown_of(first[i]) >= 0);
        }
        assert(spent_all[i].valid_at(now) && spent_all[i].same_identity(grant));
    }
    let after_first = champion.prepared(handle, AbilityName::AUTO, now);
    assert(after_first.effects == spent_all);
    assert(after_first.on_hit_item_effects == on_hits);
    lemma_second_round(spent_all, on_hits, handle, mode, now, on_hits.len());
    let second = granted(spent_all, on_hits, handle, mode, now, on_hits.len());
    lemma_none_ready_releases_nothing(second, now, second.len());
    let after_second = after_first.prepared(handle, AbilityName::AUTO, now);
    assert forall|i: int| 0 <= i < after_second.effects.len() implies !ready(
        #[trigger] after_second.effects[i],
        now,
    ) by {
        assert(after_second.effects[i] == spent(second[i], now));
    }
}

} // verus!
