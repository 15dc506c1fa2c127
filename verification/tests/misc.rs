use practice_tooled::armor_reducer::ArmorReducer;
use practice_tooled::attack::AttackSpeed;
use practice_tooled::attack::BasicAttack;
use practice_tooled::champions::champion::Ability;
use practice_tooled::champions::champion::AbilityName;
use practice_tooled::champions::champion::CastingData;
use practice_tooled::champions::leblanc::Leblanc;
use practice_tooled::champions::target_dummy::TargetDummy;
use practice_tooled::champions::vi::raw_attack_damage;
use practice_tooled::champions::vi::AbiltyDamageInfo;
use practice_tooled::champions::vi::Vi;
use practice_tooled::attack::CritAdjuster;
use practice_tooled::attack::CritCalculation;
use practice_tooled::fixed::floor_div;
use practice_tooled::fixed::mul_div;
use practice_tooled::fixed::put_percent_on;
use practice_tooled::fixed::sat_add;
use practice_tooled::fixed::sat_sub;
use practice_tooled::fixed::saturate;
use practice_tooled::fixed::take_percent_off;
use practice_tooled::fixed::UNIT;
use practice_tooled::formulas::lethality_to_pen;
use practice_tooled::formulas::resist_damage;
use practice_tooled::formulas::stack_multiplicative_reduction;
use practice_tooled::item_effects::divine_sunderer_raw;
use practice_tooled::item_effects::essence_reaver_raw;
use practice_tooled::item_effects::nightstalker_raw;
use practice_tooled::load_champion::ChampionStats;
use practice_tooled::target::VitalityData;
use practice_tooled::time_manager::CombatClock;

#[test]
fn division_rounds_toward_negative_infinity() {
    assert_eq!(floor_div(7, 2), 3);
    assert_eq!(floor_div(-7, 2), -4);
    assert_eq!(floor_div(-8, 2), -4);
    assert_eq!(floor_div(0, 5), 0);
    assert_eq!(mul_div(7, 1, 2), 3);
    assert_eq!(mul_div(-7, 1, 2), -4);
    assert_eq!(mul_div(7, 1, -2), -4);
    assert_eq!(mul_div(-7, 1, -2), 3);
}

#[test]
fn arithmetic_stops_at_the_ends_of_the_range() {
    assert_eq!(saturate(i64::MAX as i128 + 1), i64::MAX);
    assert_eq!(saturate(i64::MIN as i128 - 1), i64::MIN);
    assert_eq!(saturate(-5), -5);
    assert_eq!(sat_add(i64::MAX, 1), i64::MAX);
    assert_eq!(sat_sub(i64::MIN, 1), i64::MIN);
    assert_eq!(sat_add(2, 3), 5);
    assert_eq!(sat_sub(2, 3), -1);
    assert_eq!(mul_div(i64::MAX, i64::MAX, 1), i64::MAX);
    assert_eq!(mul_div(i64::MAX, i64::MIN, 1), i64::MIN);
    assert_eq!(resist_damage(i64::MAX, -100 * UNIT), i64::MAX);
}

#[test]
fn percentages_come_off_and_on() {
    assert_eq!(take_percent_off(200 * UNIT, 30 * UNIT), 140 * UNIT);
    assert_eq!(put_percent_on(200 * UNIT, 30 * UNIT), 260 * UNIT);
    assert_eq!(take_percent_off(-200 * UNIT, 30 * UNIT), -140 * UNIT);
    assert_eq!(take_percent_off(1, 50 * UNIT), 0);
    assert_eq!(take_percent_off(77, 0), 77);
    assert_eq!(put_percent_on(77, 0), 77);
}

#[test]
fn resistance_lowers_and_negative_resistance_raises_damage() {
    let damage = 1234 * UNIT;
    assert_eq!(resist_damage(damage, 0), damage);
    for resist in [1, UNIT, 50 * UNIT, 1000 * UNIT] {
        assert!(resist_damage(damage, resist) < damage);
        assert!(resist_damage(damage, -resist) > damage);
    }
    // a billionth of damage cannot grow by less than a billionth
    assert_eq!(resist_damage(1, -1), 1);
    // without damage there is nothing to lower or raise
    assert_eq!(resist_damage(0, 50 * UNIT), 0);
    assert_eq!(resist_damage(0, -50 * UNIT), 0);
}

#[test]
fn lethality_is_worth_six_tenths_to_all_of_itself() {
    let lethality = 18 * UNIT;
    let mut before = lethality * 6 / 10;
    for level in 1..=18 {
        let penetration = lethality_to_pen(lethality, level);
        assert!(penetration >= before);
        assert!(penetration <= lethality);
        before = penetration;
    }
    // 18 * (0.6 + 0.4 / 18) = 11.2
    assert_eq!(lethality_to_pen(lethality, 1), 11_200_000_000);
    assert_eq!(lethality_to_pen(lethality, 18), lethality);
}

#[test]
fn percentages_stack_with_diminishing_returns() {
    assert_eq!(stack_multiplicative_reduction(30 * UNIT, 20 * UNIT), 44 * UNIT);
    assert_eq!(stack_multiplicative_reduction(20 * UNIT, 30 * UNIT), 44 * UNIT);
    assert_eq!(stack_multiplicative_reduction(0, 35 * UNIT), 35 * UNIT);
    assert_eq!(stack_multiplicative_reduction(35 * UNIT, 0), 35 * UNIT);
    assert_eq!(stack_multiplicative_reduction(100 * UNIT, 35 * UNIT), 100 * UNIT);
}

#[test]
fn reducer_rebuilt_from_its_sources_is_the_same() {
    let reducer = ArmorReducer {
        flat_armor_reduction: 30 * UNIT,
        percent_armor_reduction: 30 * UNIT,
        flat_armor_pen: 10 * UNIT,
        percent_armor_pen: 18 * UNIT,
        percent_bonus_armor_pen: 45 * UNIT,
    };
    let sources = [
        ArmorReducer { flat_armor_reduction: 30 * UNIT, ..Default::default() },
        ArmorReducer { percent_armor_reduction: 30 * UNIT, ..Default::default() },
        ArmorReducer { flat_armor_pen: 10 * UNIT, ..Default::default() },
        ArmorReducer { percent_armor_pen: 18 * UNIT, ..Default::default() },
        ArmorReducer { percent_bonus_armor_pen: 45 * UNIT, ..Default::default() },
    ];
    let mut rebuilt = ArmorReducer::default();
    for source in &sources {
        rebuilt.add_armor_reducer(source);
    }
    let mut backwards = ArmorReducer::default();
    for source in sources.iter().rev() {
        backwards.add_armor_reducer(source);
    }
    for (base, bonus) in [(100, 200), (18, 0), (0, 0), (20, 40)] {
        let target = VitalityData { base_armor: base * UNIT, bonus_armor: bonus * UNIT, ..Default::default() };
        assert_eq!(rebuilt.get_effective_armor(&target), reducer.get_effective_armor(&target));
        assert_eq!(backwards.get_effective_armor(&target), reducer.get_effective_armor(&target));
    }
    assert_eq!(rebuilt.percent_armor_pen, 18 * UNIT);
}

#[test]
fn reducer_from_statistics_holds_lethality_and_penetration() {
    let stats = ChampionStats { lethality: 18 * UNIT, percent_armor_pen: 30 * UNIT, ..Default::default() };
    let reducer = ArmorReducer::from((&stats, 1));
    assert_eq!(reducer.flat_armor_pen, 11_200_000_000);
    assert_eq!(reducer.percent_armor_pen, 30 * UNIT);
    assert_eq!(reducer.flat_armor_reduction, 0);
    assert_eq!(reducer.percent_armor_reduction, 0);
    assert_eq!(reducer.percent_bonus_armor_pen, 0);
}

#[test]
fn attack_from_statistics_grows_with_level() {
    let stats = ChampionStats {
        base_attack_damage: 63 * UNIT,
        attack_damage_per_level: 3_500_000_000,
        bonus_attack_damage: 10 * UNIT,
        attack_speed: 644_000_000,
        attack_speed_per_level: 2 * UNIT,
        bonus_attack_speed: 15 * UNIT,
        ..Default::default()
    };
    let attack = BasicAttack::from((&stats, 5));
    // 63 + 3.5 * 4 * 0.7725
    assert_eq!(attack.base_attack_damage, 73_815_000_000);
    assert_eq!(attack.bonus_attack_damage, 10 * UNIT);
    assert_eq!(attack.get_total_attack_damage(), 83_815_000_000);
    let speed = AttackSpeed::from((&stats, 5));
    assert_eq!(speed.base, 644_000_000);
    // 2 * 4 * 0.7725 + 15
    assert_eq!(speed.bonus, 21_180_000_000);
    // 0.644 * 1.2118
    assert_eq!(speed.get_attacks_per_second(), 780_399_200);
}

#[test]
fn vitality_from_statistics_is_at_full_health() {
    let stats = ChampionStats {
        health: 655 * UNIT,
        health_per_level: 99 * UNIT,
        armor: 30 * UNIT,
        armor_per_level: 4_700_000_000,
        magic_resist: 32 * UNIT,
        magic_resist_per_level: 2_050_000_000,
        ..Default::default()
    };
    let data = VitalityData::from((&stats, 5));
    assert_eq!(data.max_health, 960_910_000_000);
    assert_eq!(data.current_health, 960_910_000_000);
    assert_eq!(data.base_armor, 44_523_000_000);
    assert_eq!(data.bonus_armor, 0);
    // 32 + 2.05 * 4 * 0.7725
    assert_eq!(data.magic_resist, 38_334_500_000);
}

#[test]
fn damage_tables_scale_with_attack_damage() {
    let info = AbiltyDamageInfo {
        base_damages: [10 * UNIT, 20 * UNIT, 30 * UNIT, 40 * UNIT, 50 * UNIT],
        ad_ratio: 50 * UNIT,
        bonus_ad_ratio: 25 * UNIT,
        ..Default::default()
    };
    // 30 + 0.5 * (100 + 40) + 0.25 * 40
    assert_eq!(info.to_damage_amount(2, 100 * UNIT, 40 * UNIT), 110 * UNIT);
    assert_eq!(info.to_damage_amount(0, 0, 0), 10 * UNIT);
    assert_eq!(AbiltyDamageInfo::default().to_damage_amount(4, 100 * UNIT, 40 * UNIT), 0);
}

#[test]
fn vi_abilities_by_rank() {
    let vi = Vi::new();
    let cast = |rank: u8, charge: i64| CastingData { rank, charge };
    // (45 + 0.8 * 30) * (1 + 0.8 * 0.5)
    assert_eq!(Vi::q_raw(&vi.q_data, 100 * UNIT, 30 * UNIT, &cast(0, 500_000_000)), 96_600_000_000);
    // (7 + 35 / 35)% of 2000, with a thirty-fifth cut off at the billionth
    assert_eq!(Vi::w_raw(&vi.w_data, 35 * UNIT, 2000 * UNIT, &cast(2, 0)), 159_999_999_600);
    // 15 + 1.2 * (100 + 30)
    assert_eq!(Vi::e_raw(&vi.e_data, 100 * UNIT, 30 * UNIT, &None, &cast(1, 0)), 171 * UNIT);
    let crit = Some((CritAdjuster { critical_strike_chance: UNIT, bonus_critical_damage: 0 }, CritCalculation::DidCrit));
    assert_eq!(Vi::e_raw(&vi.e_data, 100 * UNIT, 30 * UNIT, &crit, &cast(1, 0)), 299_250_000_000);
    // 325 + 1.1 * 30
    assert_eq!(Vi::r_raw(&vi.r_data, 100 * UNIT, 30 * UNIT, &cast(1, 0)), 358 * UNIT);
    assert_eq!(raw_attack_damage(100 * UNIT, 30 * UNIT, &None), 130 * UNIT);
    assert_eq!(raw_attack_damage(100 * UNIT, 30 * UNIT, &crit), 227_500_000_000);
}

#[test]
fn vi_table_of_abilities_and_combo() {
    let mut vi = Vi::new();
    let closures = vi.get_name_closures();
    assert_eq!(closures.data.len(), 5);
    assert!(matches!(closures.get(&AbilityName::Q), Some(Ability::ViQ(info)) if info.bonus_ad_ratio == 80 * UNIT));
    assert!(matches!(closures.get(&AbilityName::W), Some(Ability::ViW(info)) if info.bonus_ad_ratio == 28_571_428));
    assert!(matches!(closures.get(&AbilityName::E), Some(Ability::ViE(info)) if info.ad_ratio == 120 * UNIT));
    assert!(matches!(closures.get(&AbilityName::R), Some(Ability::ViR(info)) if info.bonus_ad_ratio == 110 * UNIT));
    assert!(matches!(closures.get(&AbilityName::AUTO), Some(Ability::ViAutoAttack)));
    assert!(closures.get(&AbilityName::NIGHTSTALKER).is_none());
    assert!(matches!(Vi::ability_q(vi.q_data), Ability::ViQ(_)));
    assert!(matches!(Vi::ability_w(vi.w_data), Ability::ViW(_)));
    assert!(matches!(Vi::ability_e(vi.e_data), Ability::ViE(_)));
    assert!(matches!(Vi::ability_r(vi.r_data), Ability::ViR(_)));
    assert!(matches!(Vi::auto_attack(), Ability::ViAutoAttack));
    assert!(Ability::ViQ(vi.q_data).applies_denting_blows());
    assert!(!Ability::ViR(vi.r_data).applies_denting_blows());
    assert!(!Ability::AutoAttack.applies_denting_blows());

    let combo = Vi::ult_combo([1, 2, 3, 4]);
    let names: Vec<AbilityName> = combo.iter().map(|(name, _)| *name).collect();
    assert_eq!(
        names,
        vec![AbilityName::Q, AbilityName::AUTO, AbilityName::E, AbilityName::R, AbilityName::AUTO, AbilityName::E]
    );
    let ranks: Vec<u8> = combo.iter().map(|(_, data)| data.rank).collect();
    assert_eq!(ranks, vec![1, 0, 3, 2, 0, 3]);
    assert_eq!(combo[0].1.charge, 1_250_000_000);
    assert_eq!(combo[1].1.charge, 0);
    assert_eq!(Vi::NAME, "Vi");
}

#[test]
fn item_abilities_by_range() {
    assert_eq!(nightstalker_raw(40 * UNIT, false), 65 * UNIT);
    assert_eq!(nightstalker_raw(40 * UNIT, true), 87 * UNIT);
    assert_eq!(essence_reaver_raw(100 * UNIT, 40 * UNIT), 116 * UNIT);
    assert_eq!(divine_sunderer_raw(100 * UNIT, 2000 * UNIT, false), 185 * UNIT);
    assert_eq!(divine_sunderer_raw(100 * UNIT, 2000 * UNIT, true), 245 * UNIT);
}

#[test]
fn leblanc_starts_at_full_health() {
    let stats = ChampionStats { health: 598 * UNIT, health_per_level: 111 * UNIT, armor: 22 * UNIT, ..Default::default() };
    let leblanc = Leblanc::new(stats, 2);
    // 598 + 111 * 0.72
    assert_eq!(leblanc.current_health, 677_920_000_000);
    assert_eq!(leblanc.initial_armor, 22 * UNIT);
    assert_eq!(leblanc.level, 2);
    assert_eq!(Leblanc::NAME, "Leblanc");
}

#[test]
fn target_dummy_heals_to_a_thousand() {
    let mut dummy = TargetDummy::new_with_resist(30 * UNIT, 20 * UNIT);
    assert_eq!(dummy.get_level(), 1);
    assert_eq!(dummy.get_initial_armor(), 30 * UNIT);
    assert_eq!(dummy.get_stats().magic_resist, 20 * UNIT);
    assert_eq!(dummy.get_current_health(), 1000 * UNIT);
    *dummy.get_current_health_mut() -= 400 * UNIT;
    assert_eq!(dummy.get_current_health(), 600 * UNIT);
    dummy.get_stats_mut().health = 1200 * UNIT;
    dummy.full_heal();
    assert_eq!(dummy.get_current_health(), 1200 * UNIT);
    assert_eq!(TargetDummy::new().get_initial_armor(), 0);
}

#[test]
fn clock_advances_by_what_it_is_given() {
    let mut clock = CombatClock::new();
    assert_eq!(clock.time(), 0);
    clock.advance(UNIT);
    clock.advance(20 * UNIT);
    assert_eq!(clock.time(), 21 * UNIT);
    clock.advance(i64::MAX);
    assert_eq!(clock.time(), i64::MAX);
}

#[test]
fn ability_names_as_text() {
    assert_eq!(AbilityName::Q.to_string(), "Q");
    assert_eq!(AbilityName::WPassive.to_string(), "WPassive");
    assert_eq!(AbilityName::AUTO.to_string(), "AUTO");
    assert_eq!(AbilityName::NIGHTSTALKER.to_string(), "NIGHTSTALKER");
    assert_eq!(AbilityName::SpellbladeEssenceReaver.to_string(), "SpellbladeEssenceReaver");
}

#[test]
fn test_load_champion_basic_attack() {
    let stats = ChampionStats { base_attack_damage: 63 * UNIT, attack_damage_per_level: 3 * UNIT, ..Default::default() };
    let attack = BasicAttack::from((&stats, 5));
    assert_eq!(72, (attack.base_attack_damage as f64 / UNIT as f64).round() as u32);
}

#[test]
fn tiny_damage_against_resistance_rounds_down_to_nothing() {
    // what is left reaches a billionth exactly where damage * 100 >= 100 + resistance
    assert_eq!(resist_damage(1, 50 * UNIT), 0);
    assert_eq!(resist_damage(2, 100 * UNIT), 1);
    assert_eq!(resist_damage(2, 100 * UNIT + 1), 0);
    // the amplified share reaches a billionth exactly where damage * -resistance >= 100 - resistance
    assert_eq!(resist_damage(3, -50 * UNIT), 4);
    assert_eq!(resist_damage(2, -100 * UNIT), 3);
    assert_eq!(resist_damage(2, -100 * UNIT + 1), 2);
}

#[test]
fn one_source_summed_is_itself_and_two_in_either_order() {
    let a = ArmorReducer {
        flat_armor_reduction: 3 * UNIT,
        percent_armor_reduction: 7 * UNIT,
        flat_armor_pen: 11 * UNIT,
        percent_armor_pen: 33_333_333_333,
        percent_bonus_armor_pen: 13 * UNIT,
    };
    let b = ArmorReducer { percent_armor_pen: 12_345_678_901, flat_armor_pen: UNIT, ..Default::default() };
    let target = VitalityData { base_armor: 80 * UNIT, bonus_armor: 45 * UNIT, ..Default::default() };
    let mut alone = ArmorReducer::default();
    alone.add_armor_reducer(&a);
    assert_eq!(alone.get_effective_armor(&target), a.get_effective_armor(&target));
    let mut ab = ArmorReducer::default();
    ab.add_armor_reducer(&a);
    ab.add_armor_reducer(&b);
    let mut ba = ArmorReducer::default();
    ba.add_armor_reducer(&b);
    ba.add_armor_reducer(&a);
    assert_eq!(ab.percent_armor_pen, ba.percent_armor_pen);
    assert_eq!(ab.get_effective_armor(&target), ba.get_effective_armor(&target));
}

#[test]
fn three_sources_stack_to_within_a_billionth_for_each() {
    let pen = |percent_armor_pen: i64| ArmorReducer { percent_armor_pen, flat_armor_pen: UNIT, ..Default::default() };
    let fold = |sources: [ArmorReducer; 3]| {
        let mut sum = ArmorReducer::default();
        for source in &sources {
            sum.add_armor_reducer(source);
        }
        sum
    };
    let one_way = fold([pen(1), pen(1), pen(50 * UNIT)]);
    let other_way = fold([pen(1), pen(50 * UNIT), pen(1)]);
    // exactly 50.000000001 and a bit: the order decides where the bit is rounded away
    assert_eq!(one_way.percent_armor_pen, 50 * UNIT + 1);
    assert_eq!(other_way.percent_armor_pen, 50 * UNIT + 2);
    // what is added is the same in any order
    assert_eq!(one_way.flat_armor_pen, 3 * UNIT);
    assert_eq!(other_way.flat_armor_pen, 3 * UNIT);
}
