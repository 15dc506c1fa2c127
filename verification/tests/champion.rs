use practice_tooled::armor_reducer::ArmorReducer;
use practice_tooled::champions::champion::AbilityName;
use practice_tooled::champions::champion::Arena;
use practice_tooled::champions::champion::CastingData;
use practice_tooled::champions::champion::Champion;
use practice_tooled::champions::champion::ChampionHandle;
use practice_tooled::champions::champion::NamedClosures;
use practice_tooled::champions::vi::Vi;
use practice_tooled::fixed::UNIT;
use practice_tooled::item_effects::OnHit;
use practice_tooled::item_effects::OnHitActivation;
use practice_tooled::load_champion::ChampionStats;
use practice_tooled::target::AbilityEffect;
use practice_tooled::target::EffectData;
use practice_tooled::target::EffectKind;
use practice_tooled::target::EffectName;
use practice_tooled::target::EffectResult;
use practice_tooled::target::EmpowerState;
use practice_tooled::target::Target;
use practice_tooled::target::ThreeHit;
use practice_tooled::target::ThreeHitApplyInfo;

fn vi_stats() -> ChampionStats {
    ChampionStats {
        health: 655 * UNIT,
        health_per_level: 99 * UNIT,
        armor: 30 * UNIT,
        armor_per_level: 4_700_000_000,
        magic_resist: 32 * UNIT,
        magic_resist_per_level: 2_050_000_000,
        attack_range: 125 * UNIT,
        base_attack_damage: 63 * UNIT,
        attack_damage_per_level: 3 * UNIT,
        attack_speed: 644_000_000,
        attack_speed_per_level: 2 * UNIT,
        ..Default::default()
    }
}

fn vi(level: u8, ranks: [u8; 4]) -> Champion {
    let mut vi_data = Vi::new();
    let vi_closures = vi_data.get_name_closures();
    Champion::new(vi_stats(), level, ranks, vi_closures)
}

fn shred(percent: i64) -> EffectResult {
    EffectResult::ArmorReducer(ArmorReducer { percent_armor_reduction: percent * UNIT, ..Default::default() })
}

fn counter(name: EffectName, expiry: i64, pending: EffectResult, pending_ttl: i64) -> EffectData {
    EffectData {
        expiry,
        unique_name: name,
        result: EffectResult::ThreeHit(ThreeHit {
            hit_count: 0,
            on_third_hit: ThreeHitApplyInfo { ttl: pending_ttl, unique_name: name, result: Box::new(pending) },
        }),
    }
}

fn rounded(x: i64) -> u32 {
    (x as f64 / UNIT as f64).round() as u32
}

#[test]
fn dummy_has_thousand_health_and_given_resists() {
    let dummy = Champion::new_dummy_with_resist(30 * UNIT, 40 * UNIT);
    assert_eq!(dummy.current_health, 1000 * UNIT);
    assert_eq!(dummy.get_max_health(), 1000 * UNIT);
    assert_eq!(dummy.get_base_armor(), 30 * UNIT);
    assert_eq!(dummy.get_bonus_armor(), 0);
    assert_eq!(dummy.get_missing_health(), 0);
    let data = dummy.get_vitality_data();
    assert_eq!(data.base_armor, 30 * UNIT);
    assert_eq!(data.magic_resist, 40 * UNIT);
    assert_eq!(data.max_health, 1000 * UNIT);
    assert_eq!(Champion::new_dummy().get_base_armor(), 0);
}

#[test]
fn new_champion_grows_with_level() {
    let mut champion = vi(5, [0, 0, 0, 0]);
    // 63 + 3 * 4 * (0.7025 + 0.0175 * 4) = 72.27
    assert_eq!(champion.get_base_ad(), 72_270_000_000);
    assert_eq!(rounded(champion.get_base_ad()), 72);
    // bonus attack damage is no base attack damage
    champion.stats.bonus_attack_damage = 40 * UNIT;
    assert_eq!(champion.get_base_ad(), 72_270_000_000);
    assert_eq!(champion.get_bonus_ad(), 40 * UNIT);
    // 655 + 99 * 4 * 0.7725 = 960.91
    assert_eq!(champion.get_max_health(), 960_910_000_000);
    assert_eq!(champion.current_health, 960_910_000_000);
    // 30 + 4.7 * 4 * 0.7725 = 44.523
    assert_eq!(champion.get_base_armor(), 44_523_000_000);
    assert_eq!(champion.get_bonus_armor(), 0);
    assert!(!champion.is_ranged());
}

#[test]
fn bonus_armor_is_what_items_added() {
    let mut champion = vi(1, [0, 0, 0, 0]);
    champion.stats.armor += 25 * UNIT;
    assert_eq!(champion.get_base_armor(), 30 * UNIT);
    assert_eq!(champion.get_bonus_armor(), 25 * UNIT);
}

#[test]
fn full_heal_restores_health() {
    let mut dummy = Champion::new_dummy();
    let attacker = vi(1, [0, 0, 0, 0]);
    dummy.receive_damage(&attacker, 100 * UNIT, 0);
    assert_eq!(dummy.get_missing_health(), 100 * UNIT);
    dummy.full_heal();
    assert_eq!(dummy.get_missing_health(), 0);
}

#[test]
fn receive_damage_is_resisted_by_armor() {
    let mut dummy = Champion::new_dummy_with_resist(25 * UNIT, 0);
    let attacker = vi(1, [0, 0, 0, 0]);
    dummy.receive_damage(&attacker, 1000 * UNIT, 0);
    assert_eq!(dummy.current_health, 200 * UNIT);
}

#[test]
fn receive_damage_counts_valid_armor_reducers_only() {
    let mut arena = Arena::new();
    let attacker = vi(1, [0, 0, 0, 0]);
    let mut dummy = Champion::new_dummy_with_resist(100 * UNIT, 0);
    dummy.upsert_effect(
        &mut arena,
        EffectData { expiry: 4 * UNIT, unique_name: EffectName::Other(1), result: shred(50) },
        0,
    );
    // armor 100 halved to 50: two thirds of the damage go through
    dummy.receive_damage(&attacker, 300 * UNIT, 4 * UNIT);
    assert_eq!(dummy.get_missing_health(), 200 * UNIT);
    dummy.full_heal();
    // one billionth of a second later the shred has lapsed
    dummy.receive_damage(&attacker, 300 * UNIT, 4 * UNIT + 1);
    assert_eq!(dummy.get_missing_health(), 150 * UNIT);
}

#[test]
fn receive_damage_uses_attacker_lethality_and_penetration() {
    let mut attacker = vi(18, [0, 0, 0, 0]);
    attacker.stats.lethality = 10 * UNIT;
    attacker.stats.percent_armor_pen = 50 * UNIT;
    let mut dummy = Champion::new_dummy_with_resist(120 * UNIT, 0);
    // 120 armor, half penetrated, 10 lethality at level 18: 50 armor
    dummy.receive_damage(&attacker, 300 * UNIT, 0);
    assert_eq!(dummy.get_missing_health(), 200 * UNIT);
}

#[test]
fn valid_effects_leaves_lapsed_effects_out() {
    let mut arena = Arena::new();
    let mut dummy = Champion::new_dummy();
    dummy.upsert_effect(
        &mut arena,
        EffectData { expiry: 5 * UNIT, unique_name: EffectName::Other(1), result: shred(10) },
        0,
    );
    dummy.upsert_effect(
        &mut arena,
        EffectData { expiry: 10 * UNIT, unique_name: EffectName::Other(2), result: shred(20) },
        0,
    );
    assert_eq!(dummy.valid_effects(5 * UNIT).len(), 2);
    let later = dummy.valid_effects(5 * UNIT + 1);
    assert_eq!(later.len(), 1);
    assert_eq!(later[0].unique_name, EffectName::Other(2));
    assert_eq!(dummy.valid_effects(11 * UNIT).len(), 0);
    // lapsed effects stay until an upsert touches them
    assert_eq!(dummy.effects.len(), 2);
}

#[test]
fn upsert_replaces_by_name_and_kind() {
    let mut arena = Arena::new();
    let mut dummy = Champion::new_dummy();
    let name = EffectName::Other(7);
    assert!(dummy.upsert_effect(&mut arena, EffectData { expiry: 5 * UNIT, unique_name: name, result: shred(10) }, 0).is_some());
    // same name, other kind: a second effect
    dummy.upsert_effect(
        &mut arena,
        EffectData {
            expiry: 5 * UNIT,
            unique_name: name,
            result: EffectResult::EmpowerNextAttack(EmpowerState::Cooldown),
        },
        0,
    );
    assert_eq!(dummy.effects.len(), 2);
    // same name and kind while valid: the old effect stays, payload and expiry, as the youngest
    dummy.upsert_effect(&mut arena, EffectData { expiry: 9 * UNIT, unique_name: name, result: shred(30) }, UNIT);
    assert_eq!(dummy.effects.len(), 2);
    let kept = &dummy.effects[1];
    assert_eq!(kept.expiry, 5 * UNIT);
    assert!(matches!(&kept.result, EffectResult::ArmorReducer(r) if r.percent_armor_reduction == 10 * UNIT));
    // an earlier expiry does not shorten it either
    dummy.upsert_effect(&mut arena, EffectData { expiry: 2 * UNIT, unique_name: name, result: shred(30) }, UNIT);
    assert_eq!(dummy.effects[1].expiry, 5 * UNIT);
    // once lapsed, the new effect takes its place as it is
    dummy.upsert_effect(&mut arena, EffectData { expiry: 20 * UNIT, unique_name: name, result: shred(30) }, 10 * UNIT);
    assert_eq!(dummy.effects.len(), 2);
    let fresh = &dummy.effects[1];
    assert_eq!(fresh.expiry, 20 * UNIT);
    assert!(matches!(&fresh.result, EffectResult::ArmorReducer(r) if r.percent_armor_reduction == 30 * UNIT));
}

#[test]
fn effects_are_equal_by_name_and_kind() {
    let a = EffectData { expiry: 0, unique_name: EffectName::Other(1), result: shred(10) };
    let b = EffectData { expiry: 9, unique_name: EffectName::Other(1), result: shred(20) };
    let c = EffectData { expiry: 0, unique_name: EffectName::Other(2), result: shred(10) };
    let d = EffectData {
        expiry: 0,
        unique_name: EffectName::Other(1),
        result: EffectResult::EmpowerNextAttack(EmpowerState::Cooldown),
    };
    assert!(a == b);
    assert!(a != c);
    assert!(a != d);
    assert_eq!(a.result.kind(), EffectKind::ArmorReducer);
    assert_eq!(d.result.kind(), EffectKind::EmpowerNextAttack);
    assert!(a.is_valid(0));
    assert!(!a.is_valid(1));
}

#[test]
fn two_hits_leave_a_live_counter_with_one_hit_counted() {
    let mut arena = Arena::new();
    let mut dummy = Champion::new_dummy();
    let name = EffectName::Other(3);
    assert!(dummy.upsert_effect(&mut arena, counter(name, 4 * UNIT, shred(20), 4 * UNIT), 0).is_some());
    assert!(dummy.upsert_effect(&mut arena, counter(name, 5 * UNIT, shred(20), 4 * UNIT), UNIT).is_some());
    assert_eq!(dummy.effects.len(), 1);
    let live = &dummy.effects[0];
    assert_eq!(live.expiry, 5 * UNIT);
    assert!(live.is_valid(UNIT));
    assert!(matches!(&live.result, EffectResult::ThreeHit(t) if t.hit_count == 1));
}

#[test]
fn third_hit_sets_the_pending_effect_off_and_removes_the_counter() {
    let mut arena = Arena::new();
    let mut dummy = Champion::new_dummy();
    let name = EffectName::Other(3);
    dummy.upsert_effect(&mut arena, counter(name, 4 * UNIT, shred(20), 4 * UNIT), 0);
    dummy.upsert_effect(&mut arena, counter(name, 5 * UNIT, shred(20), 4 * UNIT), UNIT);
    let third = dummy.upsert_effect(&mut arena, counter(name, 6 * UNIT, shred(20), 4 * UNIT), 2 * UNIT);
    assert!(third.is_none());
    assert_eq!(dummy.effects.len(), 1);
    let landed = &dummy.effects[0];
    assert_eq!(landed.unique_name, name);
    // valid for its own four seconds from the third hit
    assert_eq!(landed.expiry, 6 * UNIT);
    assert!(matches!(&landed.result, EffectResult::ArmorReducer(r) if r.percent_armor_reduction == 20 * UNIT));
    // the next hit starts a new counter
    assert!(dummy.upsert_effect(&mut arena, counter(name, 7 * UNIT, shred(20), 4 * UNIT), 3 * UNIT).is_some());
    assert_eq!(dummy.effects.len(), 2);
    assert!(matches!(&dummy.effects[1].result, EffectResult::ThreeHit(t) if t.hit_count == 0));
}

#[test]
fn lapsed_counter_starts_over() {
    let mut arena = Arena::new();
    let mut dummy = Champion::new_dummy();
    let name = EffectName::Other(3);
    dummy.upsert_effect(&mut arena, counter(name, 4 * UNIT, shred(20), 4 * UNIT), 0);
    dummy.upsert_effect(&mut arena, counter(name, 4 * UNIT, shred(20), 4 * UNIT), UNIT);
    // the counter lapsed at 4: the hit at 5 is a first hit again
    let hit = dummy.upsert_effect(&mut arena, counter(name, 9 * UNIT, shred(20), 4 * UNIT), 5 * UNIT);
    assert!(hit.is_some());
    assert_eq!(dummy.effects.len(), 1);
    assert_eq!(dummy.effects[0].expiry, 9 * UNIT);
    assert!(matches!(&dummy.effects[0].result, EffectResult::ThreeHit(t) if t.hit_count == 0));
}

#[test]
fn third_hit_executes_a_pending_ability_at_once() {
    let mut arena = Arena::new();
    let attacker = arena.insert(vi(1, [0, 0, 0, 0]));
    let mut dummy = Champion::new_dummy();
    let name = EffectName::Other(4);
    let pending = || {
        EffectResult::AbilityEffect(AbilityEffect { attacker, name: AbilityName::R, data: CastingData::new(0) })
    };
    dummy.upsert_effect(&mut arena, counter(name, 4 * UNIT, pending(), 0), 0);
    dummy.upsert_effect(&mut arena, counter(name, 4 * UNIT, pending(), 0), 0);
    assert_eq!(dummy.get_missing_health(), 0);
    assert!(dummy.upsert_effect(&mut arena, counter(name, 4 * UNIT, pending(), 0), 0).is_none());
    // the ultimate at rank 0 without bonus attack damage
    assert_eq!(dummy.get_missing_health(), 150 * UNIT);
    assert_eq!(dummy.effects.len(), 0);
}

#[test]
fn pending_ability_of_a_gone_attacker_is_dropped_silently() {
    let mut arena = Arena::new();
    let attacker = arena.insert(vi(1, [0, 0, 0, 0]));
    let mut dummy = Champion::new_dummy();
    let name = EffectName::Other(4);
    let pending = || {
        EffectResult::AbilityEffect(AbilityEffect { attacker, name: AbilityName::R, data: CastingData::new(0) })
    };
    dummy.upsert_effect(&mut arena, counter(name, 4 * UNIT, pending(), 0), 0);
    dummy.upsert_effect(&mut arena, counter(name, 4 * UNIT, pending(), 0), 0);
    assert!(arena.remove(attacker).is_some());
    assert!(arena.get(attacker).is_none());
    assert!(dummy.upsert_effect(&mut arena, counter(name, 4 * UNIT, pending(), 0), 0).is_none());
    assert_eq!(dummy.get_missing_health(), 0);
    assert_eq!(dummy.effects.len(), 0);
}

#[test]
fn execute_ability_of_a_gone_attacker_is_none() {
    let mut arena = Arena::new();
    let attacker = arena.insert(vi(1, [0, 0, 0, 0]));
    arena.remove(attacker);
    let mut dummy = Champion::new_dummy();
    let dealt = Champion::execute_ability(&mut arena, attacker, &AbilityName::Q, &mut dummy, &CastingData::new(0), 0);
    assert_eq!(dealt, None);
    assert_eq!(dummy.get_missing_health(), 0);
    let nobody = ChampionHandle { index: 17 };
    assert_eq!(
        Champion::execute_ability(&mut arena, nobody, &AbilityName::Q, &mut dummy, &CastingData::new(0), 0),
        None
    );
}

#[test]
fn execute_ability_without_behavior_does_nothing() {
    let mut arena = Arena::new();
    let attacker = arena.insert(vi(1, [0, 0, 0, 0]));
    let mut dummy = Champion::new_dummy();
    let dealt =
        Champion::execute_ability(&mut arena, attacker, &AbilityName::WPassive, &mut dummy, &CastingData::new(0), 0);
    assert_eq!(dealt, Some(0));
    assert_eq!(dummy.effects.len(), 0);
}

#[test]
fn execute_ability_beyond_the_damage_table_does_nothing() {
    let mut arena = Arena::new();
    let attacker = arena.insert(vi(1, [0, 0, 0, 0]));
    let mut dummy = Champion::new_dummy();
    let dealt = Champion::execute_ability(&mut arena, attacker, &AbilityName::R, &mut dummy, &CastingData::new(5), 0);
    assert_eq!(dealt, Some(0));
}

#[test]
fn champion_without_abilities_falls_back_to_plain_attack() {
    let mut arena = Arena::new();
    let plain = Champion::new(vi_stats(), 1, [0, 0, 0, 0], NamedClosures { data: Vec::new() });
    let attacker = arena.insert(plain);
    let mut dummy = Champion::new_dummy();
    let dealt = Champion::execute_ability(&mut arena, attacker, &AbilityName::AUTO, &mut dummy, &CastingData::new(0), 0);
    assert_eq!(dealt, Some(63 * UNIT));
    // a plain attack counts no hits
    assert_eq!(dummy.effects.len(), 0);
    // and the four abilities are unknown to it
    assert_eq!(
        Champion::execute_ability(&mut arena, attacker, &AbilityName::Q, &mut dummy, &CastingData::new(0), 0),
        Some(0)
    );
}

#[test]
fn vi_q_uncharged() {
    let mut arena = Arena::new();
    let attacker = arena.insert(vi(1, [0, 0, 0, 0]));
    let mut target = Champion::new_dummy();
    Champion::execute_ability(
        &mut arena,
        attacker,
        &AbilityName::Q,
        &mut target,
        &CastingData { rank: 0, charge: 0 },
        0,
    );
    assert_eq!(45, rounded(target.get_missing_health()));
}

#[test]
fn vi_q_fully_charged() {
    let mut arena = Arena::new();
    let attacker = arena.insert(vi(1, [0, 0, 0, 0]));
    let mut target = Champion::new_dummy();
    Champion::execute_ability(
        &mut arena,
        attacker,
        &AbilityName::Q,
        &mut target,
        &CastingData { rank: 0, charge: 1_250_000_000 },
        0,
    );
    assert_eq!(90, rounded(target.get_missing_health()));
}

#[test]
fn vi_q_with_bonus_attack_damage() {
    let mut arena = Arena::new();
    let mut champion = vi(3, [0, 0, 0, 0]);
    champion.stats.bonus_attack_damage += 30 * UNIT;
    let attacker = arena.insert(champion);
    let mut target = Champion::new_dummy();
    let dealt = Champion::execute_ability(
        &mut arena,
        attacker,
        &AbilityName::Q,
        &mut target,
        &CastingData { rank: 1, charge: 1_250_000_000 },
        0,
    );
    assert_eq!(188, rounded(target.get_missing_health()));
    assert_eq!(dealt, Some(188 * UNIT));
}

#[test]
fn vi_q_overcharged_is_capped() {
    let mut arena = Arena::new();
    let attacker = arena.insert(vi(1, [0, 0, 0, 0]));
    let mut target = Champion::new_dummy();
    let dealt = Champion::execute_ability(
        &mut arena,
        attacker,
        &AbilityName::Q,
        &mut target,
        &CastingData { rank: 0, charge: 3 * UNIT },
        0,
    );
    assert_eq!(dealt, Some(90 * UNIT));
}

#[test]
fn test_w_via_autos() {
    let mut arena = Arena::new();
    let attacker = arena.insert(vi(6, [0, 0, 2, 0]));
    let mut target = Champion::new_dummy_with_resist(30 * UNIT, 0);
    const HITS: usize = 9;
    let mut damage = [0i64; HITS];
    let mut now = 0;
    for hit in damage.iter_mut() {
        *hit = Champion::execute_ability(&mut arena, attacker, &AbilityName::AUTO, &mut target, &CastingData::default(), now)
            .unwrap();
        now += UNIT;
    }
    assert_eq!(damage[1], damage[0], "first two autos should do equal damage {:#?}", damage);
    assert!(damage[2] > damage[1], "third hit does bonus damage {:#?}", damage);
    assert!(damage[4] > damage[1], "fourth hit does more damage than first/second {:#?}", damage);
    assert!(damage[2] < damage[5], "first w proc does less than second {:#?}", damage);
    // the shred of the third hit lasts from 2 to 6 and is not prolonged by the sixth hit at 5:
    // the seventh hit still gains from it, the eighth and the ninth do not
    assert_eq!(damage[6], damage[3], "shredded until its own expiry {:#?}", damage);
    assert_eq!(damage[7], damage[0], "plain again after the shred lapsed {:#?}", damage);
    assert_eq!(damage[8], damage[2], "third w proc meets full armor again {:#?}", damage);
    // 74.85 attack damage against 30 armor
    assert_eq!(damage[0], 57_576_923_076);
    // the third attack, and 4% of 1000 health, against 30 armor
    assert_eq!(damage[2], 57_576_923_076 + 30_769_230_769);
    // an attack against armor shredded to 24
    assert_eq!(damage[3], 60_362_903_225);
}

#[test]
fn vi_hits_expire_after_four_seconds() {
    let mut arena = Arena::new();
    let attacker = arena.insert(vi(6, [0, 0, 2, 0]));
    let mut target = Champion::new_dummy();
    let mut hit = |now: i64, target: &mut Champion| {
        Champion::execute_ability(&mut arena, attacker, &AbilityName::AUTO, target, &CastingData::default(), now).unwrap()
    };
    let plain = hit(0, &mut target);
    assert_eq!(hit(4 * UNIT, &mut target), plain);
    // the counter lasts until 8 after the second hit; the hit at 9 is a first hit again
    assert_eq!(hit(9 * UNIT, &mut target), plain);
    assert_eq!(hit(10 * UNIT, &mut target), plain);
    assert!(hit(11 * UNIT, &mut target) > plain);
}

#[test]
fn test_full_combo() {
    let mut arena = Arena::new();
    let mut champion = vi(6, [0, 0, 2, 0]);
    champion.stats.bonus_attack_damage += 40 * UNIT;
    let ranks = champion.ranks;
    let attacker = arena.insert(champion);
    let mut target = Champion::new_dummy();
    Champion::execute_combo(&mut arena, attacker, Vi::ult_combo(ranks), &mut target, 0);
    assert_eq!(965, rounded(target.get_missing_health()));
    // 154 + 114.85 + (167.82 + 51.4285712) + 194 + 114.85 + 167.82
    assert_eq!(target.get_missing_health(), 964_768_571_200);
}

#[test]
fn test_full_combo_2() {
    let mut arena = Arena::new();
    let mut champion = vi(6, [0, 0, 2, 0]);
    // a dirk and a whisper: 50 attack damage, 10 lethality, 18% armor penetration
    champion.stats.bonus_attack_damage += 50 * UNIT;
    champion.stats.lethality += 10 * UNIT;
    champion.stats.percent_armor_pen = 18 * UNIT;
    let ranks = champion.ranks;
    let attacker = arena.insert(champion);
    let mut target = Champion::new_dummy_with_resist(30 * UNIT, 0);
    Champion::execute_combo(&mut arena, attacker, Vi::ult_combo(ranks), &mut target, 0);
    assert_eq!(905, rounded(target.get_missing_health()));
}

#[test]
fn combo_is_its_abilities_in_order() {
    let mut arena = Arena::new();
    let attacker = arena.insert(vi(6, [0, 0, 2, 0]));
    let mut by_combo = Champion::new_dummy_with_resist(30 * UNIT, 0);
    Champion::execute_combo(&mut arena, attacker, Vi::ult_combo([0, 0, 2, 0]), &mut by_combo, 0);

    let mut arena = Arena::new();
    let attacker = arena.insert(vi(6, [0, 0, 2, 0]));
    let mut one_by_one = Champion::new_dummy_with_resist(30 * UNIT, 0);
    for (name, data) in Vi::ult_combo([0, 0, 2, 0]) {
        Champion::execute_ability(&mut arena, attacker, &name, &mut one_by_one, &data, 0);
    }
    assert_eq!(by_combo.current_health, one_by_one.current_health);
    assert_eq!(by_combo.effects.len(), one_by_one.effects.len());
}

fn sheen() -> OnHit {
    OnHit {
        ttl: Some(10 * UNIT),
        name: AbilityName::SpellbladeSheen,
        mode: OnHitActivation::ActiveSpell,
        cooldown: 1_500_000_000,
    }
}

fn sheen_case(ability_delay: i64, auto_delay: i64, expect_empowered: (bool, bool)) {
    let mut arena = Arena::new();
    let mut champion = vi(6, [0, 0, 0, 0]);
    champion.on_hit_item_effects.push(sheen());
    let attacker = arena.insert(champion);
    let mut target = Champion::new_dummy();
    let mut now = 0;
    let cast = |arena: &mut Arena, name: AbilityName, target: &mut Champion, now: i64| {
        Champion::execute_ability(arena, attacker, &name, target, &CastingData::default(), now).unwrap()
    };
    let base_auto = cast(&mut arena, AbilityName::AUTO, &mut target, now);
    cast(&mut arena, AbilityName::R, &mut target, now);
    now += ability_delay * UNIT;
    let empowered_auto = cast(&mut arena, AbilityName::AUTO, &mut target, now);
    now += auto_delay * UNIT;
    cast(&mut arena, AbilityName::R, &mut target, now);
    let second_base_auto = cast(&mut arena, AbilityName::AUTO, &mut target, now);
    let (first, second) = expect_empowered;
    if first {
        assert!(base_auto < empowered_auto);
    } else {
        assert_eq!(base_auto, empowered_auto);
    }
    if second {
        assert!(base_auto < second_base_auto, "l {}, r {}", base_auto, second_base_auto);
    } else {
        assert_eq!(base_auto, second_base_auto);
    }
}

#[test]
fn sheen_is_on_cooldown_right_after_it_fired() {
    sheen_case(5, 0, (true, false));
}

#[test]
fn sheen_is_ready_again_after_its_cooldown() {
    sheen_case(5, 2, (true, true));
}

#[test]
fn sheen_lapses_when_not_used_in_time() {
    sheen_case(15, 0, (false, true));
}

#[test]
fn empowered_attack_fires_exactly_once() {
    let mut arena = Arena::new();
    let mut champion = Champion::new(vi_stats(), 6, [0, 0, 0, 0], NamedClosures { data: Vec::new() });
    champion.on_hit_item_effects.push(sheen());
    let attacker = arena.insert(champion);
    let mut target = Champion::new_dummy();
    let mut auto = |arena: &mut Arena, target: &mut Champion| {
        Champion::execute_ability(arena, attacker, &AbilityName::AUTO, target, &CastingData::default(), 0).unwrap()
    };
    let plain = auto(&mut arena, &mut target);
    assert_eq!(plain, 74_850_000_000);
    // the spell itself is unknown to this champion, but casting it readies Sheen
    Champion::execute_ability(&mut arena, attacker, &AbilityName::E, &mut target, &CastingData::default(), 0);
    let empowered = auto(&mut arena, &mut target);
    let after = auto(&mut arena, &mut target);
    // Sheen adds the base attack damage, once
    assert_eq!(empowered, 2 * 74_850_000_000);
    assert_eq!(after, plain);
    let owner = arena.get(attacker).unwrap();
    assert_eq!(owner.effects.len(), 1);
    assert!(matches!(&owner.effects[0].result, EffectResult::EmpowerNextAttack(EmpowerState::Cooldown)));
    assert_eq!(owner.effects[0].expiry, 1_500_000_000);
}

#[test]
fn follow_ups_come_after_the_attack_itself() {
    // Vi's third hit shreds armor; Sheen's damage, released by the same attack, already gains from it
    let mut arena = Arena::new();
    let mut champion = vi(6, [0, 0, 0, 0]);
    champion.on_hit_item_effects.push(sheen());
    let attacker = arena.insert(champion);
    let mut target = Champion::new_dummy_with_resist(30 * UNIT, 0);
    let auto = |arena: &mut Arena, target: &mut Champion| {
        Champion::execute_ability(arena, attacker, &AbilityName::AUTO, target, &CastingData::default(), 0).unwrap()
    };
    auto(&mut arena, &mut target);
    auto(&mut arena, &mut target);
    Champion::execute_ability(&mut arena, attacker, &AbilityName::R, &mut target, &CastingData::default(), 0);
    let third = auto(&mut arena, &mut target);
    // attack and third-hit damage against 30 armor, then Sheen's 74.85 against 24
    assert_eq!(third, 57_576_923_076 + 30_769_230_769 + 60_362_903_225);
}

#[test]
fn test_nighstalker() {
    let mut arena = Arena::new();
    let mut champion = vi(6, [0, 0, 0, 0]);
    champion.on_hit_item_effects.push(OnHit {
        ttl: None,
        name: AbilityName::NIGHTSTALKER,
        mode: OnHitActivation::Auto,
        cooldown: 15 * UNIT,
    });
    let attacker = arena.insert(champion);
    let mut target = Champion::new_dummy();
    let mut now = 0;
    let mut auto = |now: i64, target: &mut Champion| {
        Champion::execute_ability(&mut arena, attacker, &AbilityName::AUTO, target, &CastingData::default(), now).unwrap()
    };
    let first_proc = auto(now, &mut target);
    now += 20 * UNIT;
    let second_proc = auto(now, &mut target);
    assert_eq!(first_proc, second_proc);
    now += 5 * UNIT;
    let third_auto = auto(now, &mut target);
    assert!(
        third_auto < second_proc,
        "third auto {:2} shouldnt be a duskblade proc and do less than second {:2}",
        third_auto,
        second_proc
    );
    // a melee attacker without bonus attack damage: 55 on top of the attack
    assert_eq!(first_proc, 74_850_000_000 + 55 * UNIT);
    assert_eq!(third_auto, 74_850_000_000);
}

#[test]
fn consume_empowered_releases_ready_attacks_in_order() {
    let mut arena = Arena::new();
    let mut champion = Champion::new_dummy();
    let handle = ChampionHandle { index: 0 };
    let ability = |name: AbilityName| AbilityEffect { attacker: handle, name, data: CastingData::default() };
    let empower = |name: AbilityName, expiry: i64, state: EmpowerState| EffectData {
        expiry,
        unique_name: EffectName::Ability(name),
        result: EffectResult::EmpowerNextAttack(state),
    };
    champion.upsert_effect(&mut arena, empower(AbilityName::Q, 9 * UNIT, EmpowerState::Active(ability(AbilityName::Q), 2 * UNIT)), 0);
    champion.upsert_effect(&mut arena, empower(AbilityName::W, 9 * UNIT, EmpowerState::Cooldown), 0);
    champion.upsert_effect(&mut arena, empower(AbilityName::E, UNIT, EmpowerState::Active(ability(AbilityName::E), 2 * UNIT)), 0);
    champion.upsert_effect(&mut arena, empower(AbilityName::R, 9 * UNIT, EmpowerState::Active(ability(AbilityName::R), 3 * UNIT)), 0);
    let released = champion.consume_empowered(5 * UNIT);
    // the one that lapsed at 1 and the one on cooldown release nothing
    assert_eq!(released.len(), 2);
    assert_eq!(released[0].name, AbilityName::Q);
    assert_eq!(released[1].name, AbilityName::R);
    assert_eq!(champion.effects[0].expiry, 7 * UNIT);
    assert!(matches!(&champion.effects[0].result, EffectResult::EmpowerNextAttack(EmpowerState::Cooldown)));
    assert_eq!(champion.effects[1].expiry, 9 * UNIT);
    assert_eq!(champion.effects[2].expiry, UNIT);
    assert!(matches!(&champion.effects[2].result, EffectResult::EmpowerNextAttack(EmpowerState::Active(_, _))));
    assert_eq!(champion.effects[3].expiry, 8 * UNIT);
    assert_eq!(champion.consume_empowered(5 * UNIT).len(), 0);
}

#[test]
fn on_hit_effects_are_granted_by_their_mode() {
    let mut champion = Champion::new_dummy();
    champion.on_hit_item_effects.push(sheen());
    champion.on_hit_item_effects.push(OnHit {
        ttl: None,
        name: AbilityName::NIGHTSTALKER,
        mode: OnHitActivation::Auto,
        cooldown: 15 * UNIT,
    });
    let handle = ChampionHandle { index: 3 };
    champion.process_on_hit_effects(handle, OnHitActivation::ActiveSpell, 2 * UNIT);
    assert_eq!(champion.effects.len(), 1);
    assert_eq!(champion.effects[0].unique_name, EffectName::Ability(AbilityName::SpellbladeSheen));
    assert_eq!(champion.effects[0].expiry, 12 * UNIT);
    champion.process_on_hit_effects(handle, OnHitActivation::Auto, 2 * UNIT);
    assert_eq!(champion.effects.len(), 2);
    assert_eq!(champion.effects[1].expiry, i64::MAX);
    assert!(matches!(
        &champion.effects[1].result,
        EffectResult::EmpowerNextAttack(EmpowerState::Active(a, cd))
            if a.attacker == handle && a.name == AbilityName::NIGHTSTALKER && *cd == 15 * UNIT
    ));
}

#[test]
fn arena_hands_out_places_in_order() {
    let mut arena = Arena::new();
    let a = arena.insert(Champion::new_dummy());
    let b = arena.insert(Champion::new_dummy_with_resist(5 * UNIT, 0));
    assert_eq!(a.index, 0);
    assert_eq!(b.index, 1);
    assert_eq!(arena.get(b).unwrap().get_base_armor(), 5 * UNIT);
    assert!(arena.remove(a).is_some());
    assert!(arena.remove(a).is_none());
    assert!(arena.get(a).is_none());
    assert!(arena.get(b).is_some());
}

#[test]
fn upsert_to_champ_counts_under_the_name_of_the_pending_effect() {
    let mut arena = Arena::new();
    let mut dummy = Champion::new_dummy();
    let pending = || ThreeHitApplyInfo { ttl: 4 * UNIT, unique_name: EffectName::Other(9), result: Box::new(shred(20)) };
    ThreeHit::upsert_to_champ(&mut dummy, &mut arena, pending(), 4 * UNIT, UNIT);
    assert_eq!(dummy.effects.len(), 1);
    assert_eq!(dummy.effects[0].unique_name, EffectName::Other(9));
    assert_eq!(dummy.effects[0].expiry, 5 * UNIT);
    assert!(matches!(&dummy.effects[0].result, EffectResult::ThreeHit(t) if t.hit_count == 0));
    ThreeHit::upsert_to_champ(&mut dummy, &mut arena, pending(), 4 * UNIT, 2 * UNIT);
    assert_eq!(dummy.effects[0].expiry, 6 * UNIT);
    ThreeHit::upsert_to_champ(&mut dummy, &mut arena, pending(), 4 * UNIT, 3 * UNIT);
    assert_eq!(dummy.effects.len(), 1);
    assert_eq!(dummy.effects[0].expiry, 7 * UNIT);
    assert_eq!(dummy.effects[0].result.kind(), EffectKind::ArmorReducer);
}

#[test]
fn a_counter_may_end_in_another_counter() {
    let mut arena = Arena::new();
    let mut dummy = Champion::new_dummy();
    let inner = EffectName::Other(1);
    let outer = EffectName::Other(2);
    let nested = || {
        EffectResult::ThreeHit(ThreeHit {
            hit_count: 0,
            on_third_hit: ThreeHitApplyInfo { ttl: 4 * UNIT, unique_name: inner, result: Box::new(shred(20)) },
        })
    };
    let hit = |dummy: &mut Champion, arena: &mut Arena| {
        dummy.upsert_effect(
            arena,
            EffectData {
                expiry: 4 * UNIT,
                unique_name: outer,
                result: EffectResult::ThreeHit(ThreeHit {
                    hit_count: 0,
                    on_third_hit: ThreeHitApplyInfo { ttl: 4 * UNIT, unique_name: inner, result: Box::new(nested()) },
                }),
            },
            0,
        )
    };
    // three hits on the outer counter are one hit on the inner one
    for round in 0..3 {
        assert!(hit(&mut dummy, &mut arena).is_some());
        assert!(hit(&mut dummy, &mut arena).is_some());
        assert!(hit(&mut dummy, &mut arena).is_none());
        assert_eq!(dummy.effects.len(), 1);
        if round < 2 {
            assert_eq!(dummy.effects[0].unique_name, inner);
            assert!(matches!(&dummy.effects[0].result, EffectResult::ThreeHit(t) if t.hit_count == round));
        }
    }
    // the ninth hit was the third on the inner counter
    assert_eq!(dummy.effects[0].unique_name, inner);
    assert_eq!(dummy.effects[0].result.kind(), EffectKind::ArmorReducer);
}

#[test]
fn apply_w_effect_three_times_is_a_third_hit() {
    let mut arena = Arena::new();
    let mut champion = vi(1, [0, 3, 0, 0]);
    champion.stats.bonus_attack_damage = 35 * UNIT;
    let attacker = arena.insert(champion);
    let mut target = Champion::new_dummy_with_resist(100 * UNIT, 0);
    Vi::apply_w_effect(&mut target, &mut arena, attacker, 0);
    assert_eq!(target.effects.len(), 2);
    assert_eq!(target.effects[0].unique_name, EffectName::DentingBlowsDamage);
    assert_eq!(target.effects[1].unique_name, EffectName::DentingBlowsArmor);
    assert_eq!(target.effects[0].expiry, 4 * UNIT);
    Vi::apply_w_effect(&mut target, &mut arena, attacker, UNIT);
    assert_eq!(target.get_missing_health(), 0);
    Vi::apply_w_effect(&mut target, &mut arena, attacker, 2 * UNIT);
    // rank 3 of four ranks from zero: 8.5% and 35 / 35 % of 1000 health, halved by 100 armor
    assert_eq!(target.get_missing_health(), 47_499_999_900);
    assert_eq!(target.effects.len(), 1);
    assert_eq!(target.effects[0].unique_name, EffectName::DentingBlowsArmor);
    assert_eq!(target.effects[0].expiry, 6 * UNIT);
    assert!(matches!(&target.effects[0].result, EffectResult::ArmorReducer(r) if r.percent_armor_reduction == 20 * UNIT));
    // a gone attacker counts no hits
    arena.remove(attacker);
    Vi::apply_w_effect(&mut target, &mut arena, attacker, 2 * UNIT);
    assert_eq!(target.effects.len(), 1);
}

#[test]
fn cooldown_is_not_prolonged_by_a_new_grant() {
    let mut arena = Arena::new();
    let mut champion = vi(6, [0, 0, 0, 0]);
    champion.on_hit_item_effects.push(OnHit {
        ttl: None,
        name: AbilityName::NIGHTSTALKER,
        mode: OnHitActivation::Auto,
        cooldown: 15 * UNIT,
    });
    let attacker = arena.insert(champion);
    let mut target = Champion::new_dummy();
    let mut auto = |arena: &mut Arena, now: i64| {
        Champion::execute_ability(arena, attacker, &AbilityName::AUTO, &mut target, &CastingData::default(), now).unwrap()
    };
    let plain = 74_850_000_000;
    let with_proc = plain + 55 * UNIT;
    assert_eq!(auto(&mut arena, 20 * UNIT), with_proc);
    // on cooldown until 35: the grant at 25, which would last without end, changes nothing
    assert_eq!(auto(&mut arena, 25 * UNIT), plain);
    {
        let owner = arena.get(attacker).unwrap();
        assert_eq!(owner.effects.len(), 1);
        assert_eq!(owner.effects[0].expiry, 35 * UNIT);
        assert!(matches!(&owner.effects[0].result, EffectResult::EmpowerNextAttack(EmpowerState::Cooldown)));
    }
    assert_eq!(auto(&mut arena, 35 * UNIT), plain);
    // ready again once the cooldown has passed
    assert_eq!(auto(&mut arena, 35 * UNIT + 1), with_proc);
}

#[test]
fn second_attack_at_the_same_time_is_plain() {
    let mut arena = Arena::new();
    let mut champion = Champion::new(vi_stats(), 6, [0, 0, 0, 0], NamedClosures { data: Vec::new() });
    champion.on_hit_item_effects.push(sheen());
    champion.on_hit_item_effects.push(OnHit {
        ttl: None,
        name: AbilityName::NIGHTSTALKER,
        mode: OnHitActivation::Auto,
        cooldown: 15 * UNIT,
    });
    let attacker = arena.insert(champion);
    let mut target = Champion::new_dummy();
    Champion::execute_ability(&mut arena, attacker, &AbilityName::R, &mut target, &CastingData::default(), 0);
    let mut auto = |arena: &mut Arena| {
        Champion::execute_ability(arena, attacker, &AbilityName::AUTO, &mut target, &CastingData::default(), 0).unwrap()
    };
    // the attack, Sheen's base attack damage, and Nightstalker's 55
    assert_eq!(auto(&mut arena), 2 * 74_850_000_000 + 55 * UNIT);
    assert_eq!(auto(&mut arena), 74_850_000_000);
    let owner = arena.get(attacker).unwrap();
    assert_eq!(owner.effects.len(), 2);
    assert!(owner
        .effects
        .iter()
        .all(|e| matches!(&e.result, EffectResult::EmpowerNextAttack(EmpowerState::Cooldown))));
}
