use eldritch_hero::items::AutomaticWeaponId;
use eldritch_hero::projectiles::{
    plan_projectile_hits, tether_mode_after_hit, AutomaticProjectile, RepositioningTetherMode, ScreenBounce, SkillHitOutcome,
    SkillProjectile,
};
use eldritch_hero::skills::SkillId;
use eldritch_hero::weapons::{aura_tick_damage, cone_burns, cone_strike, CircleOfWarding, ConeStrike, SwarmOfNightmares};

#[test]
fn piercing_projectile_is_spent_after_its_pierces() {
    let mut p = AutomaticProjectile::launched(AutomaticWeaponId(1), 10, 2, None);
    assert!(!p.register_hit(true));
    assert_eq!(p.piercing_left, 1);
    assert!(p.register_hit(true));
    assert_eq!(p.piercing_left, 0);
    // Later hits in the same frame do not count.
    let mut q = AutomaticProjectile::launched(AutomaticWeaponId(1), 10, 0, None);
    assert!(!q.register_hit(false));
    assert_eq!(q.piercing_left, 0);
}

#[test]
fn bouncing_projectile_keeps_its_piercing() {
    let mut p = AutomaticProjectile::launched(AutomaticWeaponId(2), 8, 1, Some(2));
    assert!(!p.register_hit(true));
    assert_eq!(p.piercing_left, 1);
    assert_eq!(p.screen_bounce(true, true, 6), ScreenBounce::Bounce { last: false });
    assert_eq!(p.bounces_left, Some(1));
    assert_eq!(p.damage_on_hit, 6);
    assert!(p.has_bounced_this_frame);
    // Already bounced this frame: no second bounce, and a hit uses a pierce.
    assert_eq!(p.screen_bounce(true, true, 4), ScreenBounce::CarryOn);
    assert_eq!(p.damage_on_hit, 6);
    assert!(p.register_hit(true));
    p.reset_bounce_flag();
    assert!(!p.has_bounced_this_frame);
    // Inside the screen, or not heading out: nothing happens.
    assert_eq!(p.screen_bounce(false, false, 4), ScreenBounce::CarryOn);
    assert_eq!(p.screen_bounce(true, false, 4), ScreenBounce::CarryOn);
    assert_eq!(p.bounces_left, Some(1));
    assert_eq!(p.screen_bounce(true, true, 4), ScreenBounce::Bounce { last: true });
    assert_eq!(p.bounces_left, Some(0));
    assert_eq!(p.damage_on_hit, 4);
    p.reset_bounce_flag();
    // Spent: removed once outside.
    assert_eq!(p.screen_bounce(false, false, 1), ScreenBounce::CarryOn);
    assert_eq!(p.screen_bounce(true, false, 1), ScreenBounce::Remove);
    assert_eq!(p.damage_on_hit, 4);
    // A projectile that never bounces carries on.
    let mut q = AutomaticProjectile::launched(AutomaticWeaponId(1), 8, 1, None);
    assert_eq!(q.screen_bounce(true, true, 1), ScreenBounce::CarryOn);
    assert_eq!(q.damage_on_hit, 8);
}

#[test]
fn hit_planning() {
    let overlaps = vec![false, true, true, false, true];
    let p = AutomaticProjectile::launched(AutomaticWeaponId(0), 5, 1, None);
    assert_eq!(plan_projectile_hits(&p, false, &overlaps), vec![1, 2]);
    assert_eq!(plan_projectile_hits(&p, true, &overlaps), vec![1]);
    let b = AutomaticProjectile::launched(AutomaticWeaponId(0), 5, 0, Some(1));
    assert_eq!(plan_projectile_hits(&b, false, &overlaps), vec![1, 2, 4]);
    let d = AutomaticProjectile::default();
    assert_eq!(plan_projectile_hits(&d, false, &overlaps), vec![1]);
    assert_eq!(plan_projectile_hits(&d, false, &vec![false, false]), Vec::<usize>::new());
}

#[test]
fn skill_projectiles_pierce_then_chain() {
    let mut p = SkillProjectile { skill_id: SkillId(1), piercing_left: 1, bounces_left: 1 };
    assert_eq!(p.strike(), SkillHitOutcome::Pierce);
    assert_eq!(p.strike(), SkillHitOutcome::ChainAndRemove);
    assert_eq!(p.strike(), SkillHitOutcome::Remove);
    assert!(p.exhausted(6));
    assert!(!p.exhausted(5));
}

#[test]
fn tethers_and_auras() {
    assert_eq!(tether_mode_after_hit(RepositioningTetherMode::Alternate), RepositioningTetherMode::Pull);
    assert_eq!(tether_mode_after_hit(RepositioningTetherMode::Push), RepositioningTetherMode::Push);
    assert_eq!(RepositioningTetherMode::default(), RepositioningTetherMode::Pull);
    let mut c = CircleOfWarding::default();
    assert_eq!(aura_tick_damage(&c), None);
    c.is_active = true;
    assert_eq!(aura_tick_damage(&c), Some(3));
    let s = SwarmOfNightmares::dormant(2, 5);
    assert!(!s.is_active);
}

#[test]
fn hits_stay_within_budget_and_order() {
    let overlaps = vec![true, false, true, true, true, false, true];
    let p = AutomaticProjectile::launched(AutomaticWeaponId(0), 5, 2, None);
    let hits = plan_projectile_hits(&p, false, &overlaps);
    assert_eq!(hits, vec![0, 2, 3]);
    assert!(hits.windows(2).all(|w| w[0] < w[1]));
    let wide = AutomaticProjectile::launched(AutomaticWeaponId(0), 5, 9, None);
    assert_eq!(plan_projectile_hits(&wide, false, &overlaps), vec![0, 2, 3, 4, 6]);
}

#[test]
fn skill_bolt_damages_each_horror_once() {
    let mut p = SkillProjectile { skill_id: SkillId(2), piercing_left: 1, bounces_left: 0 };
    let mut already_hit: Vec<u64> = Vec::new();
    let mut first_health = 50;
    assert_eq!(p.hit_horror(&mut already_hit, 7, &mut first_health, 30), Some(SkillHitOutcome::Pierce));
    assert_eq!(first_health, 20);
    assert_eq!(already_hit, vec![7]);
    assert_eq!(p.piercing_left, 0);
    // The same horror again: nothing happens.
    assert_eq!(p.hit_horror(&mut already_hit, 7, &mut first_health, 30), None);
    assert_eq!(first_health, 20);
    assert_eq!(already_hit, vec![7]);
    assert_eq!(p.piercing_left, 0);
    // A second horror takes the damage and the bolt is spent.
    let mut second_health = 10;
    assert_eq!(p.hit_horror(&mut already_hit, 9, &mut second_health, 30), Some(SkillHitOutcome::Remove));
    assert_eq!(second_health, -20);
    assert_eq!(already_hit, vec![7, 9]);
}

#[test]
fn cone_hits_and_burns_survivors() {
    assert!(cone_burns(Some(true), Some(5), &Some(3.0f32), &Some(0.5f32)));
    assert!(!cone_burns(Some(false), Some(5), &Some(3.0f32), &Some(0.5f32)));
    assert!(!cone_burns(None, Some(5), &Some(3.0f32), &Some(0.5f32)));
    assert!(!cone_burns(Some(true), None, &Some(3.0f32), &Some(0.5f32)));
    assert!(!cone_burns::<f32>(Some(true), Some(5), &None, &Some(0.5)));
    assert_eq!(cone_strike(50, 20, true), ConeStrike { health: 30, burns: true });
    assert_eq!(cone_strike(20, 20, true), ConeStrike { health: 0, burns: false });
    assert_eq!(cone_strike(50, 20, false), ConeStrike { health: 30, burns: false });
    assert_eq!(cone_strike(i32::MIN + 5, 10, true), ConeStrike { health: i32::MIN, burns: false });
}
