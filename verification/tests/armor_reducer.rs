use practice_tooled::armor_reducer::ArmorReducer;
use practice_tooled::fixed::UNIT;
use practice_tooled::target::VitalityData;

fn target(base_armor: i64, bonus_armor: i64) -> VitalityData {
    VitalityData { base_armor: base_armor * UNIT, bonus_armor: bonus_armor * UNIT, ..Default::default() }
}

#[test]
fn effective_armor_flat_reduction() {
    let reducer = ArmorReducer { flat_armor_reduction: 30 * UNIT, ..Default::default() };
    assert_eq!(reducer.get_effective_armor(&target(20, 40)), 30 * UNIT);
}

#[test]
fn effective_armor_percent_reduction() {
    let reducer = ArmorReducer { percent_armor_reduction: 30 * UNIT, ..Default::default() };
    assert_eq!(reducer.get_effective_armor(&target(20, 40)), 42 * UNIT);
}

#[test]
fn effective_armor_percent_pen() {
    let reducer = ArmorReducer { percent_armor_pen: 30 * UNIT, ..Default::default() };
    assert_eq!(reducer.get_effective_armor(&target(20, 40)), 42 * UNIT);
}

#[test]
fn effective_armor_percent_bonus_pen() {
    let reducer = ArmorReducer {
        percent_armor_pen: 10 * UNIT,
        percent_bonus_armor_pen: 30 * UNIT,
        ..Default::default()
    };
    assert_eq!(reducer.get_effective_armor(&target(20, 40)), 43_200_000_000);
}

#[test]
fn effective_armor_high_level() {
    let reducer = ArmorReducer {
        percent_bonus_armor_pen: 45 * UNIT,
        flat_armor_pen: 10 * UNIT,
        flat_armor_reduction: 30 * UNIT,
        percent_armor_reduction: 30 * UNIT,
        ..Default::default()
    };
    assert_eq!(reducer.get_effective_armor(&target(100, 200)), 122_300_000_000);
}

#[test]
fn effective_armor_negative_keeps_lethality_out() {
    let reducer = ArmorReducer {
        percent_bonus_armor_pen: 45 * UNIT,
        flat_armor_pen: 10 * UNIT,
        flat_armor_reduction: 30 * UNIT,
        percent_armor_reduction: 30 * UNIT,
        ..Default::default()
    };
    assert_eq!(reducer.get_effective_armor(&target(18, 0)), -12 * UNIT);
}

#[test]
fn effective_armor_floors_lethality_at_zero() {
    let reducer = ArmorReducer { flat_armor_pen: 50 * UNIT, ..Default::default() };
    assert_eq!(reducer.get_effective_armor(&target(20, 10)), 0);
}

#[test]
fn effective_armor_zero_reducer_is_total_armor() {
    let reducer = ArmorReducer::default();
    assert_eq!(reducer.get_effective_armor(&target(20, 40)), 60 * UNIT);
    assert_eq!(reducer.get_effective_armor(&target(-7, 3)), -4 * UNIT);
}

#[test]
fn armor_reduction_splits_evenly_without_armor() {
    let reducer = ArmorReducer { flat_armor_reduction: 30 * UNIT, ..Default::default() };
    let mut data = target(0, 0);
    reducer.apply_armor_reduction(&mut data);
    assert_eq!(data.base_armor, -15 * UNIT);
    assert_eq!(data.bonus_armor, -15 * UNIT);
}

#[test]
fn armor_reduction_leaves_negative_parts_to_flat_only() {
    let reducer = ArmorReducer {
        flat_armor_reduction: 30 * UNIT,
        percent_armor_reduction: 50 * UNIT,
        ..Default::default()
    };
    let mut data = target(18, 0);
    reducer.apply_armor_reduction(&mut data);
    assert_eq!(data.base_armor, -12 * UNIT);
    assert_eq!(data.bonus_armor, 0);
}

#[test]
fn set_from_lethality_converts_at_level() {
    let mut reducer = ArmorReducer { percent_armor_pen: 18 * UNIT, ..Default::default() };
    reducer.set_from_lethality(10 * UNIT, 18);
    assert_eq!(reducer.flat_armor_pen, 10 * UNIT);
    assert_eq!(reducer.percent_armor_pen, 18 * UNIT);
}

#[test]
fn add_armor_reducer_sums_and_stacks() {
    let mut reducer = ArmorReducer {
        flat_armor_reduction: 5 * UNIT,
        percent_armor_reduction: 10 * UNIT,
        flat_armor_pen: 3 * UNIT,
        percent_armor_pen: 30 * UNIT,
        percent_bonus_armor_pen: 7 * UNIT,
    };
    let other = ArmorReducer {
        flat_armor_reduction: UNIT,
        percent_armor_reduction: 20 * UNIT,
        flat_armor_pen: 2 * UNIT,
        percent_armor_pen: 20 * UNIT,
        percent_bonus_armor_pen: 3 * UNIT,
    };
    reducer.add_armor_reducer(&other);
    assert_eq!(reducer.flat_armor_reduction, 6 * UNIT);
    assert_eq!(reducer.percent_armor_reduction, 30 * UNIT);
    assert_eq!(reducer.flat_armor_pen, 5 * UNIT);
    // 1 - 0.7 * 0.8 = 0.44
    assert_eq!(reducer.percent_armor_pen, 44 * UNIT);
    assert_eq!(reducer.percent_bonus_armor_pen, 10 * UNIT);
}
