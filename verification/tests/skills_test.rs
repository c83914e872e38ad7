use std::time::Duration;

use eldritch_hero::items::AutomaticWeaponId;
use eldritch_hero::skills::{
    mind_shatter_fragment_damage, skill_slot_for_input, skill_to_cast, ActiveSkillInstance, SkillDefinition,
    SkillEffectType, SkillId, SkillInputs, SkillLibrary,
};
use eldritch_hero::survivor::Survivor;

type Effect = SkillEffectType<f32, [f32; 2], [f32; 4]>;

fn library() -> SkillLibrary<f32, [f32; 2], [f32; 4]> {
    let mut l = SkillLibrary::default();
    for id in 1..=7u32 {
        l.skills.push(SkillDefinition {
            id: SkillId(id),
            name: format!("skill {}", id),
            description: String::new(),
            base_cooldown: Duration::from_secs(2),
            effect: Effect::TemporaryShield { amount: 10 * id as i32, duration_secs: 1.0 },
        });
    }
    l
}

fn no_keys() -> SkillInputs {
    SkillInputs { right_mouse: false, key1: false, key2: false, key3: false, key_e: false, key_r: false }
}

#[test]
fn cooldowns_count_down_to_ready() {
    let mut s = ActiveSkillInstance::new(SkillId(1));
    assert!(s.is_ready());
    s.trigger(1_000_000_000);
    assert!(!s.is_ready());
    s.tick_cooldown(400_000_000);
    assert_eq!(s.current_cooldown, 600_000_000);
    s.tick_cooldown(700_000_000);
    assert_eq!(s.current_cooldown, 0);
    assert!(s.is_ready());
}

#[test]
fn skill_keys_select_slots() {
    let mut k = no_keys();
    assert_eq!(skill_slot_for_input(&k), None);
    k.key_r = true;
    assert_eq!(skill_slot_for_input(&k), Some(4));
    k.key2 = true;
    assert_eq!(skill_slot_for_input(&k), Some(1));
    k.right_mouse = true;
    assert_eq!(skill_slot_for_input(&k), Some(0));
}

#[test]
fn only_ready_equipped_skills_are_cast() {
    let mut equipped = vec![ActiveSkillInstance::new(SkillId(1)), ActiveSkillInstance::new(SkillId(2))];
    let mut k = no_keys();
    k.key2 = true;
    assert_eq!(skill_to_cast(&equipped, &k), Some(1));
    equipped[1].trigger(5);
    assert_eq!(skill_to_cast(&equipped, &k), None);
    let mut k = no_keys();
    k.key3 = true;
    assert_eq!(skill_to_cast(&equipped, &k), None);
}

#[test]
fn granting_skills_respects_slots_and_duplicates() {
    let l = library();
    let mut s = Survivor::new_with_skills_items_and_weapon(Vec::new(), Vec::new(), AutomaticWeaponId(0));
    assert!(s.grant_skill(SkillId(1), &l));
    assert!(!s.grant_skill(SkillId(1), &l));
    assert!(!s.grant_skill(SkillId(99), &l));
    for id in 2..=5 {
        assert!(s.grant_skill(SkillId(id), &l));
    }
    assert!(!s.grant_skill(SkillId(6), &l));
    assert_eq!(s.equipped_skills.len(), 5);
    assert!(s.knows_skill(SkillId(3)));
    assert!(!s.knows_skill(SkillId(6)));
}

#[test]
fn empowering_and_levelling_skills() {
    let l = library();
    let mut s = Survivor::new_with_skills_items_and_weapon(Vec::new(), Vec::new(), AutomaticWeaponId(0));
    s.grant_skill(SkillId(4), &l);
    assert!(s.empower_skill(0, 7));
    assert_eq!(s.equipped_skills[0].flat_damage_bonus, 7);
    assert_eq!(s.equipped_skills[0].current_level, 2);
    assert!(s.level_skill(0));
    assert_eq!(s.equipped_skills[0].current_level, 3);
    assert!(!s.empower_skill(1, 7));
    assert!(!s.level_skill(3));
}

#[test]
fn skill_power_with_bonus() {
    let e: Effect = Effect::Projectile { base_damage: 12, speed: 1.0, size: [1.0, 1.0], color: [0.0; 4], lifetime_secs: 1.0, piercing: 0 };
    assert_eq!(e.empowered(3), Some(15));
    let b: Effect = Effect::SurvivorBuff { speed_multiplier_bonus: 0.1, fire_rate_multiplier_bonus: 0.1, duration_secs: 1.0 };
    assert_eq!(b.empowered(3), None);
    assert_eq!(mind_shatter_fragment_damage(5), 20);
    let l = library();
    assert_eq!(l.get_skill_definition(SkillId(3)).unwrap().name, "skill 3");
    assert!(l.get_skill_definition(SkillId(30)).is_none());
}

#[test]
fn aimed_effects_need_a_direction() {
    let p: Effect = Effect::Projectile { base_damage: 1, speed: 1.0, size: [1.0, 1.0], color: [0.0; 4], lifetime_secs: 1.0, piercing: 0 };
    assert!(!p.goes_off(false));
    assert!(p.goes_off(true));
    let s: Effect = Effect::TemporaryShield { amount: 5, duration_secs: 2.0 };
    assert!(s.goes_off(false));
}

#[test]
fn cooldown_is_ready_after_its_full_length() {
    let mut s = ActiveSkillInstance::new(SkillId(2));
    s.trigger(200_000_000);
    for _ in 0..9 {
        s.tick_cooldown(20_000_000);
        assert!(!s.is_ready());
    }
    s.tick_cooldown(20_000_000);
    assert!(s.is_ready());
}

#[test]
fn a_cast_always_waits_a_tenth_of_a_second() {
    let mut s = ActiveSkillInstance::new(SkillId(3));
    s.trigger(0);
    assert_eq!(s.current_cooldown, 100_000_000);
    assert!(!s.is_ready());
    s.trigger(99_999_999);
    assert_eq!(s.current_cooldown, 100_000_000);
    s.trigger(100_000_001);
    assert_eq!(s.current_cooldown, 100_000_001);
    s.tick_cooldown(99_999_999);
    assert!(!s.is_ready());
    s.tick_cooldown(2);
    assert!(s.is_ready());
    assert_eq!(s.definition_id, SkillId(3));
}
