use practice_tooled::fixed::UNIT;
use practice_tooled::formulas::haste_to_cdr;
use practice_tooled::formulas::lethality_to_pen;
use practice_tooled::formulas::resist_damage;
use practice_tooled::formulas::stat_at_level;

#[test]
fn resist_damage_zero_resist_is_identity() {
    assert_eq!(resist_damage(1532 * UNIT, 0), 1532 * UNIT);
}

#[test]
fn resist_damage_positive_resist() {
    assert_eq!(resist_damage(1000 * UNIT, 25 * UNIT), 800 * UNIT);
}

#[test]
fn resist_damage_negative_resist() {
    assert_eq!(resist_damage(1000 * UNIT, -100 * UNIT), 1500 * UNIT);
}

#[test]
fn lethality_to_pen_at_level_18_is_lethality() {
    assert_eq!(lethality_to_pen(20 * UNIT, 18), 20 * UNIT);
}

#[test]
fn lethality_to_pen_at_level_1() {
    // 560 / 9, rounded down to the billionth
    assert_eq!(lethality_to_pen(100 * UNIT, 1), 62_222_222_222);
}

#[test]
fn stat_at_level_two() {
    assert_eq!(stat_at_level(670 * UNIT, 120 * UNIT, 2), 756_400_000_000);
}

#[test]
fn stat_at_level_eighteen() {
    assert_eq!(stat_at_level(0, UNIT, 18), 17 * UNIT);
}

#[test]
fn stat_at_level_one_is_base() {
    assert_eq!(stat_at_level(670 * UNIT, 120 * UNIT, 1), 670 * UNIT);
}

#[test]
fn haste_to_cdr_hundred() {
    assert_eq!(haste_to_cdr(100 * UNIT), 50 * UNIT);
}

#[test]
fn haste_to_cdr_past_cap() {
    // 250 / 3, rounded down to the billionth
    assert_eq!(haste_to_cdr(544 * UNIT), 83_333_333_333);
}
