use eldritch_hero::items::{
    AutomaticWeaponDefinition, AutomaticWeaponId, AutomaticWeaponLibrary, ItemDefinition, ItemEffect, ItemId,
    ItemLibrary, SurvivorTemporaryBuff,
};
use eldritch_hero::relics::relic_applies;
use eldritch_hero::skills::SkillLibrary;
use eldritch_hero::survivor::Survivor;
use eldritch_hero::weapons::SwarmOfNightmares;

type Color = [f32; 4];

fn stat_boost(max_health: Option<i32>, speed: Option<f32>, damage: Option<i32>) -> ItemEffect<f32, Color> {
    ItemEffect::PassiveStatBoost {
        max_health_increase: max_health,
        speed_multiplier: speed,
        damage_increase: damage,
        xp_gain_multiplier: None,
        pickup_radius_increase: None,
        auto_weapon_projectile_speed_multiplier_increase: None,
    }
}

fn setup_test_item_library() -> ItemLibrary<f32, Color> {
    let mut library = ItemLibrary::default();
    library.items.push(ItemDefinition {
        id: ItemId(1001),
        name: "Test Health Relic".to_string(),
        description: "Test +10 Max Endurance.".to_string(),
        effects: vec![stat_boost(Some(10), None, None)],
        icon_path: "sprites/dummy_icon.png".to_string(),
    });
    library.items.push(ItemDefinition {
        id: ItemId(1002),
        name: "Test Speed Relic".to_string(),
        description: "Test +20% Speed.".to_string(),
        effects: vec![stat_boost(None, Some(1.20), None)],
        icon_path: "sprites/dummy_icon.png".to_string(),
    });
    library.items.push(ItemDefinition {
        id: ItemId(1003),
        name: "Test Damage Relic".to_string(),
        description: "Test +5 Ichor Blast Damage.".to_string(),
        effects: vec![stat_boost(None, None, Some(5))],
        icon_path: "sprites/dummy_icon.png".to_string(),
    });
    library
}

#[test]
fn test_item_library_get_definition() {
    let library = setup_test_item_library();
    assert!(library.get_item_definition(ItemId(1001)).is_some());
    assert_eq!(library.get_item_definition(ItemId(1001)).unwrap().name, "Test Health Relic");
    assert!(library.get_item_definition(ItemId(9999)).is_none());
}

#[test]
fn test_passive_stat_boost_application() {
    assert!(true);
}

fn empty_skills() -> SkillLibrary<f32, [f32; 2], Color> {
    SkillLibrary::default()
}

#[test]
fn passive_boosts_raise_max_health_and_damage_once() {
    let library = setup_test_item_library();
    let skills = empty_skills();
    let mut survivor = Survivor::new_with_skills_items_and_weapon(Vec::new(), Vec::new(), AutomaticWeaponId(0));
    let mut health = Some(95);
    let mut circle = None;
    let mut swarm = None;
    let report = survivor.collect_item(ItemId(1001), &library, &skills, &mut health, &mut circle, &mut swarm);
    assert!(report.is_new && report.known && report.recorded);
    assert_eq!(survivor.max_health, 110);
    assert_eq!(health, Some(105));
    let report = survivor.collect_item(ItemId(1003), &library, &skills, &mut health, &mut circle, &mut swarm);
    assert!(report.recorded);
    assert_eq!(survivor.auto_weapon_damage_bonus, 5);
    assert_eq!(survivor.collected_item_ids, vec![ItemId(1001), ItemId(1003)]);
    // Picking the same relic again changes nothing.
    let report = survivor.collect_item(ItemId(1001), &library, &skills, &mut health, &mut circle, &mut swarm);
    assert!(!report.is_new && report.known && !report.recorded);
    assert_eq!(survivor.max_health, 110);
    assert_eq!(survivor.collected_item_ids.len(), 2);
}

#[test]
fn unknown_relic_is_not_collected() {
    let library = setup_test_item_library();
    let skills = empty_skills();
    let mut survivor = Survivor::new_with_skills_items_and_weapon(Vec::new(), Vec::new(), AutomaticWeaponId(0));
    let mut health = Some(100);
    let mut circle = None;
    let mut swarm = None;
    let report = survivor.collect_item(ItemId(4242), &library, &skills, &mut health, &mut circle, &mut swarm);
    assert!(report.is_new && !report.known && !report.recorded);
    assert!(survivor.collected_item_ids.is_empty());
    assert_eq!(health, Some(100));
}

#[test]
fn first_definition_with_an_id_wins() {
    let mut library = setup_test_item_library();
    library.items.push(ItemDefinition {
        id: ItemId(1001),
        name: "Shadowed Duplicate".to_string(),
        description: String::new(),
        effects: Vec::new(),
        icon_path: String::new(),
    });
    assert_eq!(library.get_item_definition(ItemId(1001)).unwrap().name, "Test Health Relic");
}

fn weapon_library() -> AutomaticWeaponLibrary<u8> {
    let mut library = AutomaticWeaponLibrary::default();
    for (id, name) in [(0u32, "Primordial Ichor Blast"), (1, "Eldritch Gatling"), (5, "Chain Lightning")] {
        library.weapons.push(AutomaticWeaponDefinition { id: AutomaticWeaponId(id), name: name.to_string(), attack_data: 0 });
    }
    library
}

#[test]
fn weapon_lookup_and_fallback() {
    let library = weapon_library();
    assert_eq!(library.get_weapon_definition(AutomaticWeaponId(5)).unwrap().name, "Chain Lightning");
    assert!(library.get_weapon_definition(AutomaticWeaponId(3)).is_none());
    assert_eq!(library.weapon_or_default(AutomaticWeaponId(1)).name, "Eldritch Gatling");
    assert_eq!(library.weapon_or_default(AutomaticWeaponId(3)).id, AutomaticWeaponId(0));
}

#[test]
fn random_relic_comes_from_the_library() {
    let library = setup_test_item_library();
    for _ in 0..50 {
        let id = library.random_relic().unwrap();
        assert!(library.get_item_definition(id).is_some());
    }
    let empty: ItemLibrary<f32, Color> = ItemLibrary::default();
    assert!(empty.random_relic().is_none());
}

#[test]
fn kill_triggers_follow_collection_order() {
    let mut library = setup_test_item_library();
    library.items.push(ItemDefinition {
        id: ItemId(2001),
        name: "Vampiric Fang".to_string(),
        description: String::new(),
        effects: vec![
            stat_boost(Some(1), None, None),
            ItemEffect::OnHorrorKillTrigger {
                chance: 0.25,
                effect: SurvivorTemporaryBuff::HealthRegen { rate: 2.0, duration_secs: 3.0 },
            },
        ],
        icon_path: String::new(),
    });
    library.items.push(ItemDefinition {
        id: ItemId(2002),
        name: "Blood Chalice".to_string(),
        description: String::new(),
        effects: vec![ItemEffect::OnHorrorKillTrigger {
            chance: 0.5,
            effect: SurvivorTemporaryBuff::HealthRegen { rate: 1.0, duration_secs: 5.0 },
        }],
        icon_path: String::new(),
    });
    let survivor = Survivor::new_with_skills_items_and_weapon(
        Vec::new(),
        vec![ItemId(2002), ItemId(1001), ItemId(7777), ItemId(2001)],
        AutomaticWeaponId(0),
    );
    let triggers = survivor.kill_triggers(&library);
    assert_eq!(triggers.len(), 2);
    assert_eq!(triggers[0].0, 0.5);
    assert_eq!(triggers[1].0, 0.25);
    assert_eq!(triggers[1].1, SurvivorTemporaryBuff::HealthRegen { rate: 2.0, duration_secs: 3.0 });
}

#[test]
fn retaliations_of_held_relics() {
    let mut library = setup_test_item_library();
    library.items.push(ItemDefinition {
        id: ItemId(7),
        name: "Cloak of Vengeful Spirits".to_string(),
        description: String::new(),
        effects: vec![ItemEffect::OnSurvivorHitRetaliate {
            chance: 0.25,
            retaliation_damage: 30,
            retaliation_radius: 150.0,
            retaliation_color: [0.7, 0.2, 0.9, 0.6],
        }],
        icon_path: String::new(),
    });
    let mut survivor = Survivor::new_with_skills_items_and_weapon(Vec::new(), vec![ItemId(1001)], AutomaticWeaponId(0));
    assert!(survivor.retaliations(&library).is_empty());
    survivor.collected_item_ids.push(ItemId(7));
    let r = survivor.retaliations(&library);
    assert_eq!(r.len(), 1);
    assert_eq!(r[0].damage, 30);
    assert_eq!(r[0].radius, 150.0);
}

#[test]
fn overflowing_relics_are_refused() {
    let mut library = setup_test_item_library();
    library.items.push(ItemDefinition {
        id: ItemId(66),
        name: "Heart of the Void".to_string(),
        description: String::new(),
        effects: vec![stat_boost(Some(i32::MAX), None, None)],
        icon_path: String::new(),
    });
    let skills = empty_skills();
    let survivor = Survivor::new_with_skills_items_and_weapon(Vec::new(), vec![ItemId(1003)], AutomaticWeaponId(0));
    assert!(!relic_applies(&survivor, ItemId(66), &library, &skills, Some(100), None, None));
    assert!(relic_applies(&survivor, ItemId(1001), &library, &skills, Some(100), None, None));
    assert!(relic_applies(&survivor, ItemId(1003), &library, &skills, Some(100), None, None));
    assert!(relic_applies(&survivor, ItemId(5555), &library, &skills, Some(100), None, None));
}

#[test]
fn random_relics_vary() {
    let library = setup_test_item_library();
    let mut seen = std::collections::HashSet::new();
    for _ in 0..300 {
        seen.insert(library.random_relic().unwrap());
    }
    assert_eq!(seen.len(), 3);
}

#[test]
fn held_relic_leaves_the_whole_survivor_alone() {
    let library = setup_test_item_library();
    let skills = empty_skills();
    let mut survivor = Survivor::new_with_skills_items_and_weapon(Vec::new(), vec![ItemId(1001)], AutomaticWeaponId(3));
    survivor.armor = 4;
    survivor.auto_weapon_piercing_bonus = 2;
    survivor.max_dash_charges = 3;
    let mut health = Some(60);
    let mut circle = None;
    let mut swarm = Some(SwarmOfNightmares::dormant(u32::MAX, 2));
    let report = survivor.collect_item(ItemId(1001), &library, &skills, &mut health, &mut circle, &mut swarm);
    assert!(!report.is_new && !report.recorded);
    assert_eq!(survivor.armor, 4);
    assert_eq!(survivor.auto_weapon_piercing_bonus, 2);
    assert_eq!(survivor.max_dash_charges, 3);
    assert_eq!(survivor.inherent_weapon_id, AutomaticWeaponId(3));
    assert_eq!(survivor.max_health, 100);
    assert_eq!(survivor.collected_item_ids, vec![ItemId(1001)]);
    assert_eq!(health, Some(60));
    assert_eq!(swarm, Some(SwarmOfNightmares::dormant(u32::MAX, 2)));
}

#[test]
fn stat_boost_ignores_a_full_swarm() {
    let library = setup_test_item_library();
    let skills = empty_skills();
    let mut survivor = Survivor::new_with_skills_items_and_weapon(Vec::new(), Vec::new(), AutomaticWeaponId(0));
    let mut full = SwarmOfNightmares::dormant(u32::MAX, 2);
    full.is_active = true;
    assert!(relic_applies(&survivor, ItemId(1001), &library, &skills, Some(100), None, Some(full)));
    let mut health = Some(100);
    let mut circle = None;
    let mut swarm = Some(full);
    let report = survivor.collect_item(ItemId(1001), &library, &skills, &mut health, &mut circle, &mut swarm);
    assert!(report.recorded);
    assert_eq!(survivor.max_health, 110);
    assert_eq!(swarm, Some(full));
}
