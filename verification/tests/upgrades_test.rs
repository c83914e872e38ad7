use std::collections::HashSet;

use eldritch_hero::items::{AutomaticWeaponId, ItemDefinition, ItemId, ItemLibrary};
use eldritch_hero::skills::{SkillId, SkillLibrary};
use eldritch_hero::survivor::Survivor;
use eldritch_hero::upgrades::{
    apply_chosen_upgrade, apply_engine_scaled_bonus, engine_scaled_bonus_fits, scale_by_rarity, EngineScaledBonus, upgrade_applies, scale_signed_by_rarity, ChanneledBeamField, ConeAttackField,
    LobbedAoEPoolField, OrbitingPetField, ReturningProjectileField, StandardProjectileField, UpgradeCard,
    UpgradeFollowUp, UpgradeId, UpgradePool, UpgradeRarity, UpgradeType,
};
use eldritch_hero::weapons::{CircleOfWarding, SwarmOfNightmares};

fn card(id: u32, t: UpgradeType<f32>, rarity: UpgradeRarity) -> UpgradeCard<f32> {
    UpgradeCard { id: UpgradeId(id), name: format!("card {}", id), description: String::new(), upgrade_type: t, rarity }
}

fn pool(n: u32) -> UpgradePool<f32> {
    let mut p = UpgradePool::default();
    for i in 0..n {
        p.available_upgrades.push(card(i, UpgradeType::IncreaseArmor(i), UpgradeRarity::Regular));
    }
    p
}

#[test]
fn draws_are_distinct_and_sized() {
    let p = pool(10);
    for _ in 0..30 {
        let draw = p.get_random_upgrades(3);
        assert_eq!(draw.len(), 3);
        let ids: HashSet<u32> = draw.iter().map(|c| c.id.0).collect();
        assert_eq!(ids.len(), 3);
        assert!(ids.iter().all(|&i| i < 10));
    }
    assert_eq!(pool(2).get_random_upgrades(3).len(), 2);
    assert_eq!(pool(0).get_random_upgrades(3).len(), 0);
}

#[test]
fn rarity_scales_amounts() {
    assert_eq!(scale_by_rarity(4, UpgradeRarity::Regular), 4);
    assert_eq!(scale_by_rarity(4, UpgradeRarity::Rare), 8);
    assert_eq!(scale_by_rarity(4, UpgradeRarity::Legendary), 12);
    assert_eq!(scale_signed_by_rarity(-3, UpgradeRarity::Rare), -6);
    assert_eq!(UpgradeRarity::default(), UpgradeRarity::Regular);
}

#[test]
fn weapon_upgrade_fields_have_defaults() {
    assert_eq!(StandardProjectileField::default(), StandardProjectileField::BaseDamage);
    let _ = (
        ReturningProjectileField::default(),
        ChanneledBeamField::default(),
        ConeAttackField::default(),
        LobbedAoEPoolField::default(),
        OrbitingPetField::default(),
    );
}

struct World {
    survivor: Survivor,
    health: i32,
    circle: CircleOfWarding,
    swarm: SwarmOfNightmares,
    items: ItemLibrary<f32, [f32; 4]>,
    skills: SkillLibrary<f32, [f32; 2], [f32; 4]>,
}

fn world() -> World {
    World {
        survivor: Survivor::new_with_skills_items_and_weapon(Vec::new(), Vec::new(), AutomaticWeaponId(0)),
        health: 80,
        circle: CircleOfWarding::default(),
        swarm: SwarmOfNightmares::dormant(0, 4),
        items: ItemLibrary::default(),
        skills: SkillLibrary::default(),
    }
}

fn apply(w: &mut World, c: &UpgradeCard<f32>) -> UpgradeFollowUp {
    apply_chosen_upgrade(&mut w.survivor, &mut w.health, &mut w.circle, &mut w.swarm, c, &w.items, &w.skills)
}

#[test]
fn endurance_and_weapon_cards() {
    let mut w = world();
    assert_eq!(apply(&mut w, &card(1, UpgradeType::MaxEndurance(30), UpgradeRarity::Regular)), UpgradeFollowUp::Done);
    assert_eq!((w.survivor.max_health, w.health), (130, 110));
    apply(&mut w, &card(2, UpgradeType::IncreaseAutoWeaponDamage(3), UpgradeRarity::Regular));
    apply(&mut w, &card(3, UpgradeType::AutoAttackAddPiercing(2), UpgradeRarity::Legendary));
    apply(&mut w, &card(4, UpgradeType::AutoAttackAddProjectiles(1), UpgradeRarity::Rare));
    assert_eq!(w.survivor.auto_weapon_damage_bonus, 3);
    assert_eq!(w.survivor.auto_weapon_piercing_bonus, 6);
    assert_eq!(w.survivor.auto_weapon_additional_projectiles_bonus, 2);
    assert_eq!(apply(&mut w, &card(5, UpgradeType::SurvivorSpeed(10), UpgradeRarity::Regular)), UpgradeFollowUp::TuneInEngine);
}

#[test]
fn aura_cards() {
    let mut w = world();
    // Damage before the circle is inscribed does nothing.
    apply(&mut w, &card(1, UpgradeType::IncreaseCircleDamage(2), UpgradeRarity::Regular));
    assert_eq!(w.circle.base_damage_per_tick, 3);
    apply(&mut w, &card(2, UpgradeType::InscribeCircleOfWarding, UpgradeRarity::Regular));
    assert!(w.circle.is_active);
    apply(&mut w, &card(3, UpgradeType::IncreaseCircleDamage(2), UpgradeRarity::Regular));
    assert_eq!(w.circle.base_damage_per_tick, 5);
    apply(&mut w, &card(4, UpgradeType::ManifestSwarmOfNightmares, UpgradeRarity::Regular));
    assert!(w.swarm.is_active);
    assert_eq!(w.swarm.num_larvae, 2);
}

#[test]
fn random_relic_card_needs_a_library() {
    let mut w = world();
    let c = card(1, UpgradeType::GrantRandomRelic, UpgradeRarity::Regular);
    assert_eq!(apply(&mut w, &c), UpgradeFollowUp::Done);
    w.items.items.push(ItemDefinition {
        id: ItemId(9),
        name: String::new(),
        description: String::new(),
        effects: Vec::new(),
        icon_path: String::new(),
    });
    assert_eq!(apply(&mut w, &c), UpgradeFollowUp::CollectRelic(ItemId(9)));
    assert!(w.survivor.collected_item_ids.is_empty());
}

#[test]
fn skill_cards_need_an_occupied_slot() {
    let mut w = world();
    let dmg = card(1, UpgradeType::IncreaseSkillDamage { slot_index: 0, amount: 4 }, UpgradeRarity::Regular);
    assert_eq!(apply(&mut w, &dmg), UpgradeFollowUp::Done);
    assert!(w.survivor.equipped_skills.is_empty());
    w.survivor.equipped_skills.push(eldritch_hero::skills::ActiveSkillInstance::new(SkillId(1)));
    apply(&mut w, &dmg);
    assert_eq!(w.survivor.equipped_skills[0].flat_damage_bonus, 4);
    let cd = card(2, UpgradeType::ReduceSkillCooldown { slot_index: 0, percent_reduction: 0.1 }, UpgradeRarity::Regular);
    assert_eq!(apply(&mut w, &cd), UpgradeFollowUp::ScaleSkillSlot(0));
    let cd_missing = card(3, UpgradeType::ReduceSkillCooldown { slot_index: 4, percent_reduction: 0.1 }, UpgradeRarity::Regular);
    assert_eq!(apply(&mut w, &cd_missing), UpgradeFollowUp::Done);
}

#[test]
fn cloned_card_is_identical() {
    let c = card(7, UpgradeType::IncreaseArmor(2), UpgradeRarity::Rare);
    let d = c.clone();
    assert_eq!(d.id, c.id);
    assert_eq!(d.name, c.name);
    assert_eq!(d.upgrade_type, c.upgrade_type);
    assert_eq!(d.rarity, c.rarity);
}

#[test]
fn overflowing_cards_are_refused() {
    let w = world();
    let big = card(1, UpgradeType::MaxEndurance(i32::MAX), UpgradeRarity::Regular);
    assert!(!upgrade_applies(&w.survivor, w.health, &w.circle, &w.swarm, &big, &w.skills));
    let fine = card(2, UpgradeType::MaxEndurance(20), UpgradeRarity::Regular);
    assert!(upgrade_applies(&w.survivor, w.health, &w.circle, &w.swarm, &fine, &w.skills));
    let armor = card(3, UpgradeType::IncreaseArmor(u32::MAX / 2), UpgradeRarity::Legendary);
    assert!(!upgrade_applies(&w.survivor, w.health, &w.circle, &w.swarm, &armor, &w.skills));
    let speed = card(4, UpgradeType::SurvivorSpeed(u32::MAX), UpgradeRarity::Legendary);
    assert!(upgrade_applies(&w.survivor, w.health, &w.circle, &w.swarm, &speed, &w.skills));
}

#[test]
fn cards_at_follows_the_positions() {
    let p = pool(5);
    let cards = p.cards_at(&vec![4, 0, 2]);
    assert_eq!(cards.len(), 3);
    assert_eq!(cards[0].id, UpgradeId(4));
    assert_eq!(cards[1].id, UpgradeId(0));
    assert_eq!(cards[2].id, UpgradeId(2));
    assert!(p.cards_at(&Vec::new()).is_empty());
}

#[test]
fn endurance_card_leaves_hit_effects_alone() {
    let mut w = world();
    w.survivor.auto_attack_aoe_on_hit_damage = 6;
    w.survivor.orbiter_explosion_damage = 9;
    apply(&mut w, &card(1, UpgradeType::MaxEndurance(30), UpgradeRarity::Legendary));
    assert_eq!(w.survivor.auto_attack_aoe_on_hit_damage, 6);
    assert_eq!(w.survivor.orbiter_explosion_damage, 9);
}

#[test]
fn engine_scaled_cards_touch_one_field() {
    let mut w = world();
    apply_engine_scaled_bonus(&mut w.survivor, EngineScaledBonus::WeaponDamage(20));
    assert_eq!(w.survivor.auto_weapon_damage_bonus, 20);
    apply_engine_scaled_bonus(&mut w.survivor, EngineScaledBonus::AreaDamageOnHit(16));
    assert_eq!(w.survivor.auto_attack_aoe_on_hit_damage, 16);
    // A weaker card keeps the better damage.
    apply_engine_scaled_bonus(&mut w.survivor, EngineScaledBonus::AreaDamageOnHit(8));
    assert_eq!(w.survivor.auto_attack_aoe_on_hit_damage, 16);
    apply_engine_scaled_bonus(&mut w.survivor, EngineScaledBonus::OrbiterExplosion(30));
    apply_engine_scaled_bonus(&mut w.survivor, EngineScaledBonus::OrbiterExplosion(45));
    assert_eq!(w.survivor.orbiter_explosion_damage, 45);
    assert_eq!(w.survivor.auto_weapon_damage_bonus, 20);
    assert_eq!(w.survivor.max_health, 100);
    assert!(engine_scaled_bonus_fits(&w.survivor, EngineScaledBonus::WeaponDamage(5)));
    w.survivor.auto_weapon_damage_bonus = i32::MAX;
    assert!(!engine_scaled_bonus_fits(&w.survivor, EngineScaledBonus::WeaponDamage(1)));
    assert!(engine_scaled_bonus_fits(&w.survivor, EngineScaledBonus::OrbiterExplosion(u32::MAX)));
}
