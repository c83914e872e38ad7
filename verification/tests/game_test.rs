use eldritch_hero::game::{
    collected_icons_update, cycle_weapon_index, damage_text_style, debug_key_pressed, debug_switch_weapon,
    elapsed_clock, endurance_band, keyboard_choice, should_despawn_on_session_end, AppState, DamageTone,
    EnduranceBand, GameState, INITIAL_MAX_HORRORS,
};
use eldritch_hero::items::{AutomaticWeaponDefinition, AutomaticWeaponId, AutomaticWeaponLibrary, ItemDefinition, ItemId, ItemLibrary};
use eldritch_hero::survivor::Survivor;
use eldritch_hero::weapons::{spark_aura_action, SparkAuraAction};

#[test]
fn app_starts_on_the_main_menu() {
    assert_eq!(AppState::default(), AppState::MainMenu);
    assert!(should_despawn_on_session_end(Some(AppState::MainMenu)));
    assert!(should_despawn_on_session_end(Some(AppState::GameOver)));
    assert!(!should_despawn_on_session_end(Some(AppState::LevelUp)));
    assert!(!should_despawn_on_session_end(None));
}

#[test]
fn debug_menu_round_trip() {
    let mut previous = None;
    assert_eq!(debug_key_pressed(AppState::InGame, &mut previous), Some(AppState::DebugUpgradeMenu));
    assert_eq!(previous, Some(AppState::InGame));
    assert_eq!(debug_key_pressed(AppState::DebugUpgradeMenu, &mut previous), Some(AppState::InGame));
    assert_eq!(previous, None);
    assert_eq!(debug_key_pressed(AppState::DebugUpgradeMenu, &mut previous), Some(AppState::InGame));
    assert_eq!(debug_key_pressed(AppState::LevelUp, &mut previous), None);
}

#[test]
fn session_reset_and_difficulty_cycles() {
    let mut g = GameState::default();
    g.score = 77;
    assert_eq!(g.reset_for_new_game_session(), INITIAL_MAX_HORRORS);
    assert_eq!((g.score, g.cycle_number, g.horror_count), (0, 1, 0));
    assert_eq!(g.advance_cycle(), 30);
    assert_eq!(g.cycle_number, 2);
    let mut last = 30;
    for _ in 0..40 {
        let cap = g.advance_cycle();
        assert!(cap >= last && cap <= 200);
        last = cap;
    }
    assert_eq!(last, 200);
    g.record_kill(9);
    assert_eq!(g.score, 4);
}

#[test]
fn clock_and_bands() {
    assert_eq!(elapsed_clock(0), (0, 0));
    assert_eq!(elapsed_clock(125), (2, 5));
    assert_eq!(elapsed_clock(3599), (59, 59));
    assert_eq!(endurance_band(20, 100), EnduranceBand::Critical);
    assert_eq!(endurance_band(33, 100), EnduranceBand::Wounded);
    assert_eq!(endurance_band(66, 100), EnduranceBand::Healthy);
    assert_eq!(endurance_band(65, 100), EnduranceBand::Wounded);
}

#[test]
fn damage_numbers() {
    let s = damage_text_style(12);
    assert_eq!((s.tone, s.plus_sign, s.magnitude), (DamageTone::Harm, false, 12));
    let s = damage_text_style(-4);
    assert_eq!((s.tone, s.plus_sign, s.magnitude), (DamageTone::Heal, true, 4));
    let s = damage_text_style(0);
    assert_eq!((s.tone, s.plus_sign, s.magnitude), (DamageTone::Neutral, false, 0));
}

#[test]
fn number_keys_pick_offered_cards() {
    assert_eq!(keyboard_choice(3, true, true, true), Some(0));
    assert_eq!(keyboard_choice(3, false, false, true), Some(2));
    assert_eq!(keyboard_choice(2, false, false, true), None);
    assert_eq!(keyboard_choice(0, true, false, false), None);
}

#[test]
fn weapon_index_wraps_both_ways() {
    assert_eq!(cycle_weapon_index(4, 5, true), 0);
    assert_eq!(cycle_weapon_index(0, 5, false), 4);
    for i in 0..5 {
        assert_eq!(cycle_weapon_index(cycle_weapon_index(i, 5, true), 5, false), i);
    }
}

fn weapons() -> AutomaticWeaponLibrary<()> {
    let mut l = AutomaticWeaponLibrary::default();
    for id in [0u32, 1, 3] {
        l.weapons.push(AutomaticWeaponDefinition { id: AutomaticWeaponId(id), name: format!("w{}", id), attack_data: () });
    }
    l
}

#[test]
fn debug_weapon_switch_resets_bonuses() {
    let library = weapons();
    let mut s = Survivor::new_with_skills_items_and_weapon(Vec::new(), Vec::new(), AutomaticWeaponId(0));
    s.auto_weapon_damage_bonus = 9;
    s.auto_weapon_piercing_bonus = 2;
    let def = debug_switch_weapon(&mut s, &library, true).unwrap();
    assert_eq!(def.id, AutomaticWeaponId(1));
    assert_eq!(s.inherent_weapon_id, AutomaticWeaponId(1));
    assert_eq!((s.auto_weapon_damage_bonus, s.auto_weapon_piercing_bonus), (0, 0));
    // Index 2 has no weapon: nothing changes.
    s.auto_weapon_damage_bonus = 3;
    assert!(debug_switch_weapon(&mut s, &library, true).is_none());
    assert_eq!(s.inherent_weapon_id, AutomaticWeaponId(1));
    assert_eq!(s.auto_weapon_damage_bonus, 3);
    // From 0 backwards wraps to index 2 (three weapons), which is missing.
    s.inherent_weapon_id = AutomaticWeaponId(0);
    assert!(debug_switch_weapon(&mut s, &library, false).is_none());
    let empty: AutomaticWeaponLibrary<()> = AutomaticWeaponLibrary::default();
    assert!(debug_switch_weapon(&mut s, &empty, true).is_none());
}

#[test]
fn relic_bar_follows_the_collection() {
    let mut items: ItemLibrary<f32, [f32; 4]> = ItemLibrary::default();
    for id in [1u32, 2, 3] {
        items.items.push(ItemDefinition {
            id: ItemId(id),
            name: String::new(),
            description: String::new(),
            effects: Vec::new(),
            icon_path: String::new(),
        });
    }
    let displayed = vec![ItemId(2), ItemId(9)];
    let collected = vec![ItemId(1), ItemId(2), ItemId(3), ItemId(8)];
    let u = collected_icons_update(&displayed, &collected, &items);
    assert_eq!(u.remove_positions, vec![1]);
    assert_eq!(u.add_items, vec![ItemId(1), ItemId(3)]);
}

#[test]
fn spark_aura_goes_with_chain_lightning() {
    assert_eq!(spark_aura_action(AutomaticWeaponId(5), false, false), SparkAuraAction::Attach);
    assert_eq!(spark_aura_action(AutomaticWeaponId(5), true, false), SparkAuraAction::RestoreVisual);
    assert_eq!(spark_aura_action(AutomaticWeaponId(5), true, true), SparkAuraAction::Keep);
    assert_eq!(spark_aura_action(AutomaticWeaponId(2), true, true), SparkAuraAction::Detach);
    assert_eq!(spark_aura_action(AutomaticWeaponId(2), false, false), SparkAuraAction::Keep);
}

#[test]
fn more_health_never_looks_worse() {
    let order = |b: EnduranceBand| match b {
        EnduranceBand::Critical => 0,
        EnduranceBand::Wounded => 1,
        EnduranceBand::Healthy => 2,
    };
    for max in [-10, 0, 1, 2, 3, 10, 99, 100, 250] {
        let mut last = 0;
        for health in -5..=300 {
            let now = order(endurance_band(health, max));
            assert!(now >= last);
            last = now;
        }
    }
}
