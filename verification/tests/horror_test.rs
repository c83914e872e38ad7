use eldritch_hero::horror::{
    choose_horror_type, elite_for_roll, horror_type_for_roll, minions_to_summon, roll_elite, score_after_kill, should_spawn,
    step_behemoth, step_ranged_attacker, step_void_blinker, FrenziedBehemothState, HorrorType, RangeReading,
    RangedAttackerState, VoidBlinkerState,
};

#[test]
fn early_waves_spawn_shadowlings_or_leeches() {
    assert_eq!(horror_type_for_roll(1, true, 99), HorrorType::SkitteringShadowling);
    assert_eq!(horror_type_for_roll(2, false, 0), HorrorType::MindLeech);
    for _ in 0..50 {
        let t = choose_horror_type(1);
        assert!(t == HorrorType::SkitteringShadowling || t == HorrorType::MindLeech);
    }
}

#[test]
fn spawn_tables_by_wave() {
    assert_eq!(horror_type_for_roll(3, true, 29), HorrorType::SkitteringShadowling);
    assert_eq!(horror_type_for_roll(3, true, 30), HorrorType::MindLeech);
    assert_eq!(horror_type_for_roll(4, true, 79), HorrorType::FloatingEyeball);
    assert_eq!(horror_type_for_roll(4, true, 80), HorrorType::VoidBlinker);
    assert_eq!(horror_type_for_roll(5, true, 14), HorrorType::SkitteringShadowling);
    assert_eq!(horror_type_for_roll(6, true, 70), HorrorType::FleshWeaver);
    assert_eq!(horror_type_for_roll(7, true, 55), HorrorType::FleshWeaver);
    assert_eq!(horror_type_for_roll(9, true, 84), HorrorType::FrenziedBehemoth);
    assert_eq!(horror_type_for_roll(9, true, 85), HorrorType::AmorphousFleshbeast);
    assert_eq!(horror_type_for_roll(0, true, 5), HorrorType::SkitteringShadowling);
    for _ in 0..50 {
        let t = choose_horror_type(3);
        assert!(matches!(
            t,
            HorrorType::SkitteringShadowling | HorrorType::MindLeech | HorrorType::FloatingEyeball | HorrorType::VoidBlinker
        ));
    }
}

#[test]
fn only_eligible_kinds_become_elite() {
    for _ in 0..200 {
        assert!(!roll_elite(HorrorType::MindLeech));
        assert!(!roll_elite(HorrorType::FleshWeaver));
        assert!(!roll_elite(HorrorType::CrawlingTorment));
        assert!(!roll_elite(HorrorType::FrenziedBehemoth));
    }
}

#[test]
fn spawning_respects_the_cap() {
    assert!(should_spawn(true, 19, 20));
    assert!(!should_spawn(true, 20, 20));
    assert!(!should_spawn(false, 0, 20));
    assert_eq!(score_after_kill(10, 25), 22);
}

#[test]
fn summoners_keep_to_their_limit() {
    assert_eq!(minions_to_summon(true, 0, 3), 2);
    assert_eq!(minions_to_summon(true, 2, 3), 1);
    assert_eq!(minions_to_summon(true, 3, 3), 0);
    assert_eq!(minions_to_summon(false, 0, 3), 0);
}

fn reading(too_close: bool, in_range: bool, beyond_leash: bool, clear_of_kiting: bool) -> RangeReading {
    RangeReading { too_close, in_range, beyond_leash, clear_of_kiting }
}

#[test]
fn ranged_attacker_cycle() {
    let mut s = RangedAttackerState::Idle;
    assert!(!step_ranged_attacker(&mut s, &reading(false, true, false, true), false, false));
    assert_eq!(s, RangedAttackerState::Attacking);
    assert!(step_ranged_attacker(&mut s, &reading(false, true, false, true), true, false));
    assert_eq!(s, RangedAttackerState::Repositioning);
    assert!(!step_ranged_attacker(&mut s, &reading(false, true, false, true), true, true));
    assert_eq!(s, RangedAttackerState::Idle);
    assert!(!step_ranged_attacker(&mut s, &reading(true, true, false, false), false, false));
    assert_eq!(s, RangedAttackerState::Kiting);
    // Kiting keeps shooting while in range.
    assert!(step_ranged_attacker(&mut s, &reading(true, true, false, false), true, false));
    assert_eq!(s, RangedAttackerState::Kiting);
    assert!(!step_ranged_attacker(&mut s, &reading(false, false, true, true), true, false));
    assert_eq!(s, RangedAttackerState::Idle);
}

#[test]
fn void_blinker_phases_cycle() {
    let mut s = VoidBlinkerState::Chasing;
    assert!(!step_void_blinker(&mut s, false));
    assert_eq!(s, VoidBlinkerState::Chasing);
    let order = [
        VoidBlinkerState::PhasingOut,
        VoidBlinkerState::PhasedOut,
        VoidBlinkerState::PhasingIn,
        VoidBlinkerState::Cooldown,
        VoidBlinkerState::Chasing,
    ];
    for expected in order {
        assert!(step_void_blinker(&mut s, true));
        assert_eq!(s, expected);
    }
}

#[test]
fn behemoth_telegraphs_then_charges() {
    let mut s = FrenziedBehemothState::Roaming;
    step_behemoth(&mut s, true, false, false, false);
    assert_eq!(s, FrenziedBehemothState::Roaming);
    step_behemoth(&mut s, true, true, false, false);
    assert_eq!(s, FrenziedBehemothState::Telegraphing);
    step_behemoth(&mut s, true, true, true, false);
    assert_eq!(s, FrenziedBehemothState::Charging);
    step_behemoth(&mut s, false, false, false, true);
    assert_eq!(s, FrenziedBehemothState::Cooldown);
    step_behemoth(&mut s, true, true, true, true);
    assert_eq!(s, FrenziedBehemothState::Roaming);
}

#[test]
fn spawn_rolls_reach_every_kind_of_the_wave() {
    let mut seen = std::collections::HashSet::new();
    for _ in 0..400 {
        seen.insert(choose_horror_type(3));
    }
    assert_eq!(seen.len(), 4);
    let mut early = std::collections::HashSet::new();
    for _ in 0..400 {
        early.insert(choose_horror_type(2));
    }
    assert_eq!(early.len(), 2);
}

#[test]
fn a_lucky_draw_makes_eligible_horrors_elite() {
    assert!(elite_for_roll(HorrorType::SkitteringShadowling, true));
    assert!(elite_for_roll(HorrorType::VoidBlinker, true));
    assert!(elite_for_roll(HorrorType::AmorphousFleshbeast, true));
    assert!(!elite_for_roll(HorrorType::SkitteringShadowling, false));
    assert!(!elite_for_roll(HorrorType::CrawlingTorment, true));
    assert!(!elite_for_roll(HorrorType::FleshWeaver, true));
    assert!(!elite_for_roll(HorrorType::MindLeech, true));
    assert!(!elite_for_roll(HorrorType::FrenziedBehemoth, true));
}
