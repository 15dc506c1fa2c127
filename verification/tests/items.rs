use practice_tooled::champions::champion::AbilityName;
use practice_tooled::champions::champion::Champion;
use practice_tooled::fixed::UNIT;
use practice_tooled::item_effects::static_ability;
use practice_tooled::item_effects::ChampionApplyable;
use practice_tooled::item_effects::ConcreteItemEffect;
use practice_tooled::item_effects::OnHit;
use practice_tooled::item_effects::OnHitActivation;
use practice_tooled::item_effects::UnknownItemEffect;
use practice_tooled::champions::champion::Ability;
use practice_tooled::champions::champion::ChampionHandle;
use practice_tooled::load_champion::ChampionStatModifier;
use practice_tooled::load_champion::ChampionStats;
use practice_tooled::load_dd_item::DDItemStatDeltas;
use practice_tooled::load_item::load_items;
use practice_tooled::load_item::name_to_id_map;
use practice_tooled::load_item::ItemEntry;
use practice_tooled::load_wiki_item::apply_item_to_champ;
use practice_tooled::load_wiki_item::is_passive_key;
use practice_tooled::load_wiki_item::WikiItemStatDeltas;
use practice_tooled::target::EffectName;
use practice_tooled::target::EffectResult;
use practice_tooled::target::EmpowerState;

fn effect(name: &str) -> UnknownItemEffect {
    UnknownItemEffect { name: name.to_string(), description: format!("what {} does", name), unique: true }
}

fn entry(id: &str, name: &str, purchasable: bool, enabled: bool) -> ItemEntry {
    ItemEntry { id: id.to_string(), name: name.to_string(), purchasable, enabled }
}

#[test]
fn spellblade_depends_on_the_item() {
    let sheen = ConcreteItemEffect::from((&effect("Spellblade"), "Sheen"));
    assert!(matches!(
        sheen,
        ConcreteItemEffect::OnHit(OnHit {
            ttl: Some(ttl),
            name: AbilityName::SpellbladeSheen,
            mode: OnHitActivation::ActiveSpell,
            cooldown,
        }) if ttl == 10 * UNIT && cooldown == 1_500_000_000
    ));
    let reaver = ConcreteItemEffect::from((&effect("Spellblade"), "Essence Reaver"));
    assert!(matches!(
        reaver,
        ConcreteItemEffect::OnHit(OnHit { name: AbilityName::SpellbladeEssenceReaver, .. })
    ));
    let sunderer = ConcreteItemEffect::from((&effect("Spellblade"), "Divine Sunderer"));
    assert!(matches!(
        sunderer,
        ConcreteItemEffect::OnHit(OnHit { name: AbilityName::SpellbladeDivineSunderer, .. })
    ));
    let other = ConcreteItemEffect::from((&effect("Spellblade"), "Trinity Force"));
    assert!(matches!(
        other,
        ConcreteItemEffect::UnhandledItemEffect(u) if u.name == "Spellblade" && u.description == "what Spellblade does"
    ));
}

#[test]
fn nightstalker_is_an_empowered_basic_attack() {
    let concrete = ConcreteItemEffect::from((&effect("Nightstalker"), "Duskblade of Draktharr"));
    assert!(matches!(
        concrete,
        ConcreteItemEffect::OnHit(OnHit {
            ttl: None,
            name: AbilityName::NIGHTSTALKER,
            mode: OnHitActivation::Auto,
            cooldown,
        }) if cooldown == 15 * UNIT
    ));
}

#[test]
fn gouge_is_ten_lethality() {
    let concrete = ConcreteItemEffect::from((&effect("Gouge"), "Serrated Dirk"));
    match concrete {
        ConcreteItemEffect::StatItemEffect(stat) => {
            assert_eq!(stat.stats.lethality, Some(10 * UNIT));
            assert_eq!(stat.stats.attack_damage, None);
        }
        other => panic!("{:?}", other),
    }
}

#[test]
fn unknown_effects_are_unhandled() {
    let concrete = ConcreteItemEffect::from((&effect("Cleave"), "Tiamat"));
    assert!(matches!(concrete, ConcreteItemEffect::UnhandledItemEffect(u) if u.name == "Cleave"));
    let unnamed = ConcreteItemEffect::from((&effect(""), "Sheen"));
    assert!(matches!(unnamed, ConcreteItemEffect::UnhandledItemEffect(u) if u.name.is_empty()));
}

#[test]
fn applying_effects_changes_the_champion() {
    let mut champion = Champion::new_dummy();
    ConcreteItemEffect::from((&effect("Nightstalker"), "Duskblade of Draktharr")).apply_to_champ(&mut champion);
    assert_eq!(champion.on_hit_item_effects.len(), 1);
    assert_eq!(champion.on_hit_item_effects[0].name, AbilityName::NIGHTSTALKER);
    ConcreteItemEffect::from((&effect("Gouge"), "Serrated Dirk")).apply_to_champ(&mut champion);
    assert_eq!(champion.stats.lethality, 10 * UNIT);
    ConcreteItemEffect::from((&effect("Cleave"), "Tiamat")).apply_to_champ(&mut champion);
    assert_eq!(champion.on_hit_item_effects.len(), 1);
    assert_eq!(champion.stats.lethality, 10 * UNIT);
    assert_eq!(champion.current_health, 1000 * UNIT);
}

#[test]
fn apply_item_applies_effects_then_statistics() {
    let mut champion = Champion::new_dummy();
    let item = WikiItemStatDeltas { attack_damage: Some(30 * UNIT), lethality: Some(5 * UNIT), ..Default::default() };
    let effects = vec![effect("Gouge"), effect("Spellblade"), effect("Nightstalker")];
    apply_item_to_champ("Sheen", &item, &effects, &mut champion);
    assert_eq!(champion.stats.bonus_attack_damage, 30 * UNIT);
    assert_eq!(champion.stats.lethality, 15 * UNIT);
    assert_eq!(champion.on_hit_item_effects.len(), 2);
    assert_eq!(champion.on_hit_item_effects[0].name, AbilityName::SpellbladeSheen);
    assert_eq!(champion.on_hit_item_effects[1].name, AbilityName::NIGHTSTALKER);
}

#[test]
fn on_hit_grants_a_ready_empowered_attack() {
    let on_hit = OnHit {
        ttl: Some(10 * UNIT),
        name: AbilityName::SpellbladeSheen,
        mode: OnHitActivation::ActiveSpell,
        cooldown: 1_500_000_000,
    };
    let handle = ChampionHandle { index: 2 };
    let granted = on_hit.to_effect(handle, 3 * UNIT);
    assert_eq!(granted.expiry, 13 * UNIT);
    assert_eq!(granted.unique_name, EffectName::Ability(AbilityName::SpellbladeSheen));
    assert!(matches!(
        granted.result,
        EffectResult::EmpowerNextAttack(EmpowerState::Active(a, cd))
            if a.attacker == handle && a.name == AbilityName::SpellbladeSheen && a.data.rank == 0
                && a.data.charge == 0 && cd == 1_500_000_000
    ));
    let forever = OnHit { ttl: None, ..on_hit };
    assert_eq!(forever.to_effect(handle, 3 * UNIT).expiry, i64::MAX);
    // close to the end of time the expiry stops at it
    assert_eq!(on_hit.to_effect(handle, i64::MAX - 1).expiry, i64::MAX);
}

#[test]
fn static_abilities_are_those_of_items_and_the_plain_attack() {
    assert!(matches!(static_ability(&AbilityName::NIGHTSTALKER), Some(Ability::Nightstalker)));
    assert!(matches!(static_ability(&AbilityName::SpellbladeSheen), Some(Ability::SpellbladeSheen)));
    assert!(matches!(
        static_ability(&AbilityName::SpellbladeEssenceReaver),
        Some(Ability::SpellbladeEssenceReaver)
    ));
    assert!(matches!(
        static_ability(&AbilityName::SpellbladeDivineSunderer),
        Some(Ability::SpellbladeDivineSunderer)
    ));
    assert!(matches!(static_ability(&AbilityName::AUTO), Some(Ability::AutoAttack)));
    assert!(static_ability(&AbilityName::Q).is_none());
    assert!(static_ability(&AbilityName::WPassive).is_none());
}

#[test]
fn wiki_item_adds_its_statistics() {
    let mut stats = ChampionStats { armor: 30 * UNIT, percent_armor_pen: 20 * UNIT, ..Default::default() };
    let item = WikiItemStatDeltas {
        armor: Some(20 * UNIT),
        magic_resist: Some(UNIT),
        hp5flat: Some(2 * UNIT),
        health: Some(300 * UNIT),
        mana: Some(4 * UNIT),
        attack_damage: Some(10 * UNIT),
        attack_speed: Some(25 * UNIT),
        lethality: Some(12 * UNIT),
        lifesteal: Some(5 * UNIT),
        percent_movement_speed: Some(6 * UNIT),
        flat_movement_speed: Some(45 * UNIT),
        ability_haste: Some(15 * UNIT),
        ability_power: Some(7 * UNIT),
        percent_armor_pen: Some(30 * UNIT),
        omnivamp: Some(8 * UNIT),
        ..Default::default()
    };
    item.modify_champion_stats(&mut stats);
    assert_eq!(stats.armor, 50 * UNIT);
    assert_eq!(stats.magic_resist, UNIT);
    assert_eq!(stats.health_regen, 2 * UNIT);
    assert_eq!(stats.health, 300 * UNIT);
    assert_eq!(stats.mana, 4 * UNIT);
    assert_eq!(stats.bonus_attack_damage, 10 * UNIT);
    assert_eq!(stats.bonus_attack_speed, 25 * UNIT);
    assert_eq!(stats.lethality, 12 * UNIT);
    assert_eq!(stats.life_steal, 5 * UNIT);
    assert_eq!(stats.percent_movement_speed, 6 * UNIT);
    assert_eq!(stats.move_speed, 45 * UNIT);
    assert_eq!(stats.ability_haste, 15 * UNIT);
    assert_eq!(stats.ability_power, 7 * UNIT);
    assert_eq!(stats.omnivamp, 8 * UNIT);
    // 1 - 0.8 * 0.7 = 0.44: percent penetration stacks, it is not added
    assert_eq!(stats.percent_armor_pen, 44 * UNIT);
    // an item without deltas changes nothing
    let before = stats;
    WikiItemStatDeltas::default().modify_champion_stats(&mut stats);
    assert_eq!(stats.armor, before.armor);
    assert_eq!(stats.percent_armor_pen, before.percent_armor_pen);
}

#[test]
fn dd_item_adds_its_statistics() {
    let mut stats = ChampionStats { armor: 30 * UNIT, bonus_attack_damage: 5 * UNIT, ..Default::default() };
    let item = DDItemStatDeltas {
        armor: Some(15 * UNIT),
        attack_damage: Some(10 * UNIT),
        health_regen: Some(UNIT),
        flat_movement_speed: Some(25 * UNIT),
        crit_chance: Some(20 * UNIT),
        ..Default::default()
    };
    item.modify_champion_stats(&mut stats);
    assert_eq!(stats.armor, 45 * UNIT);
    assert_eq!(stats.bonus_attack_damage, 15 * UNIT);
    assert_eq!(stats.health_regen, UNIT);
    assert_eq!(stats.move_speed, 25 * UNIT);
    // critical strike chance is not carried over
    assert_eq!(stats.critical_strike_chance, 0);
}

#[test]
fn load_items_keeps_what_can_be_bought_on_the_main_map() {
    let kept = load_items(&vec![
        entry("1035", "Emberknife", false, true),
        entry("1036", "Long Sword", true, true),
        entry("2051", "Guardian's Horn", true, false),
        entry("1037", "Pickaxe", true, true),
    ]);
    let ids: Vec<&str> = kept.iter().map(|e| e.id.as_str()).collect();
    assert_eq!(ids, vec!["1036", "1037"]);
    assert!(load_items(&Vec::new()).is_empty());
}

#[test]
fn name_to_id_map_gives_the_first_id_of_each_name() {
    let entries = vec![
        entry("1035", "Emberknife", false, true),
        entry("1036", "Long Sword", true, true),
        entry("221036", "Long Sword", true, true),
        entry("2051", "Guardian's Horn", true, false),
        entry("1037", "Pickaxe", true, true),
        entry("7000", "Emberknife", true, true),
    ];
    let map = name_to_id_map(&entries);
    let pairs: Vec<(&str, &str)> = map.iter().map(|(name, id)| (name.as_str(), id.as_str())).collect();
    assert_eq!(pairs, vec![("Long Sword", "1036"), ("Pickaxe", "1037"), ("Emberknife", "7000")]);
    assert!(name_to_id_map(&Vec::new()).is_empty());
}

#[test]
fn passive_effects_are_known_by_their_key() {
    assert!(is_passive_key("pass"));
    assert!(is_passive_key("pass2"));
    assert!(is_passive_key("passive"));
    assert!(!is_passive_key("pas"));
    assert!(!is_passive_key(""));
    assert!(!is_passive_key("act"));
    assert!(!is_passive_key("Pass"));
    assert!(!is_passive_key("apass"));
}
