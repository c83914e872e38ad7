use eldritch_hero::combat::{can_regenerate, cap_health, damage_horror, heal_capped, take_hit, ActiveShield};
use eldritch_hero::items::{AutomaticWeaponId, ItemId};
use eldritch_hero::skills::{ActiveSkillInstance, SkillId};
use eldritch_hero::survivor::{apply_mind_strain, resolve_horror_contact, MindStrainDebuff, Survivor, MAX_MIND_STRAIN_STACKS};

fn fresh() -> Survivor {
    Survivor::new_with_skills_items_and_weapon(Vec::new(), Vec::new(), AutomaticWeaponId(0))
}

#[test]
fn new_survivor_starts_at_level_one() {
    let s = Survivor::new_with_skills_items_and_weapon(
        vec![ActiveSkillInstance::new(SkillId(1))],
        vec![ItemId(3)],
        AutomaticWeaponId(7),
    );
    assert_eq!(s.level, 1);
    assert_eq!(s.experience, 0);
    assert_eq!(s.current_level_xp, 0);
    assert_eq!(s.max_health, 100);
    assert_eq!(s.max_dash_charges, 1);
    assert_eq!(s.inherent_weapon_id, AutomaticWeaponId(7));
    assert_eq!(s.equipped_skills.len(), 1);
    assert_eq!(s.collected_item_ids, vec![ItemId(3)]);
}

#[test]
fn experience_table_matches_levels() {
    let mut s = fresh();
    let expected = [100u32, 150, 250, 400, 600, 850, 1100, 1400, 1800, 2500, 3000, 3500];
    for (i, e) in expected.iter().enumerate() {
        s.level = (i + 1) as u32;
        assert_eq!(s.experience_to_next_level(), *e);
    }
    s.level = 0;
    assert_eq!(s.experience_to_next_level(), 0);
}

#[test]
fn gaining_echoes_levels_up_once_and_carries_the_rest() {
    let mut s = fresh();
    assert!(!s.add_experience(99));
    assert_eq!(s.level, 1);
    assert!(s.add_experience(51));
    assert_eq!(s.level, 2);
    assert_eq!(s.current_level_xp, 50);
    assert_eq!(s.experience, 150);
    // A huge gain still grants one level per call.
    assert!(s.add_experience(1000));
    assert_eq!(s.level, 3);
    assert_eq!(s.current_level_xp, 900);
}

#[test]
fn echo_ledger_stays_balanced() {
    let mut s = fresh();
    let gains = [30u32, 80, 200, 5, 400, 1, 999];
    for g in gains {
        s.add_experience(g);
        let mut spent = 0u32;
        let mut probe = fresh();
        for level in 1..s.level {
            probe.level = level;
            spent += probe.experience_to_next_level();
        }
        assert_eq!(s.experience, spent + s.current_level_xp);
    }
}

#[test]
fn weapon_bonuses_are_added() {
    let mut s = fresh();
    s.auto_weapon_damage_bonus = 4;
    s.auto_weapon_piercing_bonus = 2;
    s.auto_weapon_additional_projectiles_bonus = 3;
    assert_eq!(s.weapon_damage(10), 14);
    assert_eq!(s.weapon_piercing(1), 3);
    assert_eq!(s.volley_size(2), 6);
}

#[test]
fn shield_absorbs_before_health() {
    let mut shield = ActiveShield { amount: 20 };
    let r = shield.absorb(30);
    assert_eq!(r.damage_to_take, 10);
    assert!(r.shield_removed);
    assert_eq!(shield.amount, 0);

    let mut shield = ActiveShield { amount: 20 };
    let r = shield.absorb(5);
    assert_eq!(r.damage_to_take, 0);
    assert!(!r.shield_removed);
    assert_eq!(shield.amount, 15);

    let mut shield = ActiveShield { amount: 0 };
    let r = shield.absorb(5);
    assert_eq!(r.damage_to_take, 5);
    assert!(!r.shield_removed);
}

#[test]
fn hits_go_through_the_shield() {
    let mut health = 50;
    let mut shield = Some(ActiveShield { amount: 8 });
    take_hit(&mut health, &mut shield, 5);
    assert_eq!(health, 50);
    assert_eq!(shield, Some(ActiveShield { amount: 3 }));
    take_hit(&mut health, &mut shield, 5);
    assert_eq!(health, 48);
    assert_eq!(shield, None);
    take_hit(&mut health, &mut shield, 10);
    assert_eq!(health, 38);
}

#[test]
fn healing_and_regeneration_are_capped() {
    assert_eq!(heal_capped(90, 20, 100), 100);
    assert_eq!(heal_capped(50, 20, 100), 70);
    assert_eq!(heal_capped(50, -5, 100), 50);
    assert!(can_regenerate(50, 100));
    assert!(!can_regenerate(0, 100));
    assert!(!can_regenerate(100, 100));
    assert_eq!(cap_health(103, 100), 100);
    assert_eq!(cap_health(99, 100), 99);
}

#[test]
fn horror_damage_saturates() {
    assert_eq!(damage_horror(30, 12), 18);
    assert_eq!(damage_horror(5, 12), -7);
    assert_eq!(damage_horror(i32::MIN + 1, 5), i32::MIN);
}

#[test]
fn mind_strain_stacks_up_to_the_cap() {
    let mut debuff: Option<MindStrainDebuff> = None;
    apply_mind_strain(&mut debuff);
    assert_eq!(debuff.unwrap().stacks, 1);
    for _ in 0..10 {
        apply_mind_strain(&mut debuff);
        assert!(debuff.unwrap().stacks <= MAX_MIND_STRAIN_STACKS);
    }
    assert_eq!(debuff.unwrap().stacks, 4);
}

#[test]
fn contact_resolution_depends_on_the_horror() {
    let mut health = 100;
    let mut shield = None;
    let mut strain = None;
    assert!(resolve_horror_contact(&mut health, &mut shield, &mut strain, true, 10));
    assert_eq!(health, 100);
    assert_eq!(strain.unwrap().stacks, 1);
    assert!(!resolve_horror_contact(&mut health, &mut shield, &mut strain, false, 10));
    assert_eq!(health, 90);
    assert_eq!(strain.unwrap().stacks, 1);
}
