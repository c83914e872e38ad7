use vstd::prelude::*;
use crate::items::{AutomaticWeaponDefinition, AutomaticWeaponId, AutomaticWeaponLibrary, ItemId, ItemLibrary};
use crate::survivor::Survivor;

verus! {

/// The screens and phases of the game.
#[derive(Debug, Clone, Copy, PartialEq, Eq, Hash, Structural)]
pub enum AppState {
    MainMenu,
    InGame,
    LevelUp,
    GameOver,
    DebugUpgradeMenu,
}

impl AppState {
    /// The game opens on the main menu.
    pub fn default() -> (s: Self)
        ensures
            s == AppState::MainMenu,
    {
        AppState::MainMenu
    }
}

/// Whether entering `next` ends the session, so that the session's entities
/// (survivor, horrors, drops) are despawned: returning to the main menu or
/// losing does.
pub open spec fn ends_session(next: Option<AppState>) -> bool {
    next == Some(AppState::MainMenu) || next == Some(AppState::GameOver)
}

/// Whether the pending transition ends the session.
pub fn should_despawn_on_session_end(next: Option<AppState>) -> (r: bool)
    ensures
        r == ends_session(next),
{
    match next {
        Some(AppState::MainMenu) | Some(AppState::GameOver) => true,
        _ => false,
    }
}

/// The debug key's effect: from the game it opens the debug menu and
/// remembers the game; from the debug menu it returns to the remembered state
/// (the game when nothing is remembered) and forgets it; elsewhere nothing
/// happens. Gives the requested next state and the remembered state after.
pub open spec fn debug_toggle(current: AppState, previous: Option<AppState>) -> (Option<AppState>,
    Option<AppState>)
{
    match current {
        AppState::InGame => (Some(AppState::DebugUpgradeMenu), Some(AppState::InGame)),
        AppState::DebugUpgradeMenu => (
            Some(
                match previous {
                    Some(p) => p,
                    None => AppState::InGame,
                },
            ),
            None,
        ),
        _ => (None, previous),
    }
}

/// Handles a press of the debug key in state `current`; `previous` is the
/// state remembered on opening the debug menu. Returns the state to switch
/// to, if any.
pub fn debug_key_pressed(current: AppState, previous: &mut Option<AppState>) -> (next: Option<AppState>)
    ensures
        (next, *final(previous)) == debug_toggle(current, *old(previous)),
{
    match current {
        AppState::InGame => {
            *previous = Some(AppState::InGame);
            Some(AppState::DebugUpgradeMenu)
        },
        AppState::DebugUpgradeMenu => {
            let remembered = previous.take();
            match remembered {
                Some(p) => Some(p),
                None => Some(AppState::InGame),
            }
        },
        _ => None,
    }
}

/// Pressing the debug key twice from the game opens the debug menu and then
/// returns to the game, leaving nothing remembered.
pub proof fn debug_toggle_returns_to_game(previous: Option<AppState>)
    ensures
        debug_toggle(AppState::InGame, previous).0 == Some(AppState::DebugUpgradeMenu),
        debug_toggle(AppState::DebugUpgradeMenu, debug_toggle(AppState::InGame, previous).1) == (
            Some(AppState::InGame),
            None::<AppState>,
        ),
{
}

} // verus!

verus! {

/// Horror cap at the start of a session.
pub const INITIAL_MAX_HORRORS: u32 = 20;

/// How much the horror cap grows with each cycle.
pub const MAX_HORRORS_INCREMENT: u32 = 10;

/// The horror cap never grows past this.
pub const MAX_HORRORS_CEILING: u32 = 200;

/// The horror cap in cycle `cycle` (cycles count from 1): twenty, ten more
/// per cycle, at most two hundred.
pub open spec fn max_horrors_for_cycle(cycle: int) -> int {
    let grown = INITIAL_MAX_HORRORS + (cycle - 1) * MAX_HORRORS_INCREMENT;
    if grown < MAX_HORRORS_CEILING { grown } else { MAX_HORRORS_CEILING as int }
}

/// The integer record of a session: score, difficulty cycle and the number of
/// live horrors. The engine keeps the session's clocks beside it.
#[derive(Debug, Clone, Copy, PartialEq, Eq, Structural)]
pub struct GameState {
    pub score: u32,
    pub cycle_number: u32,
    pub horror_count: u32,
}

impl GameState {
    /// The record before any session: everything zero.
    pub fn default() -> (s: Self)
        ensures
            s.score == 0,
            s.cycle_number == 0,
            s.horror_count == 0,
    {
        GameState { score: 0, cycle_number: 0, horror_count: 0 }
    }

    /// Starts a new session: no score, first cycle, no horrors. Returns the
    /// horror cap for the session's start.
    pub fn reset_for_new_game_session(&mut self) -> (max_horrors: u32)
        ensures
            final(self).score == 0,
            final(self).cycle_number == 1,
            final(self).horror_count == 0,
            max_horrors == INITIAL_MAX_HORRORS,
            max_horrors == max_horrors_for_cycle(1),
    {
        self.score = 0;
        self.cycle_number = 1;
        self.horror_count = 0;
        INITIAL_MAX_HORRORS
    }

    /// The difficulty clock completed a period: the next cycle begins.
    /// Returns the horror cap for the new cycle.
    pub fn advance_cycle(&mut self) -> (max_horrors: u32)
        requires
            old(self).cycle_number < u32::MAX,
            (old(self).cycle_number as int) * (MAX_HORRORS_INCREMENT as int) + (INITIAL_MAX_HORRORS as int)
                <= u32::MAX,
        ensures
            final(self).cycle_number == old(self).cycle_number + 1,
            final(self).score == old(self).score,
            final(self).horror_count == old(self).horror_count,
            max_horrors == max_horrors_for_cycle(final(self).cycle_number as int),
    {
        self.cycle_number = self.cycle_number + 1;
        let grown = INITIAL_MAX_HORRORS + (self.cycle_number - 1) * MAX_HORRORS_INCREMENT;
        if grown < MAX_HORRORS_CEILING {
            grown
        } else {
            MAX_HORRORS_CEILING
        }
    }

    /// A horror worth `xp_value` echoes was slain: the score grows by half its
    /// worth, rounded down.
    pub fn record_kill(&mut self, xp_value: u32)
        requires
            old(self).score + xp_value / 2 <= u32::MAX,
        ensures
            final(self).score == old(self).score + xp_value / 2,
            final(self).cycle_number == old(self).cycle_number,
            final(self).horror_count == old(self).horror_count,
    {
        self.score = crate::horror::score_after_kill(self.score, xp_value);
    }
}

/// The horror cap grows with the cycles and never passes two hundred.
pub proof fn max_horrors_monotone_and_capped(earlier: int, later: int)
    requires
        1 <= earlier <= later,
    ensures
        max_horrors_for_cycle(earlier) <= max_horrors_for_cycle(later),
        INITIAL_MAX_HORRORS <= max_horrors_for_cycle(earlier) <= MAX_HORRORS_CEILING,
{
}

/// Minutes and seconds of the session clock, from whole elapsed seconds.
pub fn elapsed_clock(elapsed_seconds: u64) -> (clock: (u64, u64))
    ensures
        clock.0 * 60 + clock.1 == elapsed_seconds,
        clock.1 < 60,
{
    (elapsed_seconds / 60, elapsed_seconds % 60)
}

} // verus!

verus! {

/// How healthy the survivor looks on the endurance readout.
#[derive(Debug, Clone, Copy, PartialEq, Eq, Structural)]
pub enum EnduranceBand {
    Critical,
    Wounded,
    Healthy,
}

/// Integer division truncating toward zero, as machine division does.
pub open spec fn div_toward_zero(a: int, b: int) -> int {
    if a >= 0 { a / b } else { -((-a) / b) }
}

/// The endurance band: critical below a third of the maximum, wounded below
/// two thirds, healthy otherwise (thirds rounded toward zero).
pub open spec fn endurance_band_spec(health: int, max_health: int) -> EnduranceBand {
    if health < div_toward_zero(max_health, 3) {
        EnduranceBand::Critical
    } else if health < div_toward_zero(max_health * 2, 3) {
        EnduranceBand::Wounded
    } else {
        EnduranceBand::Healthy
    }
}

/// More health never shows a worse endurance band: the bands follow health
/// upward, critical, then wounded, then healthy; and a survivor at full
/// health (of a positive maximum) looks healthy.
pub proof fn endurance_band_monotone(lower: int, higher: int, max_health: int)
    requires
        lower <= higher,
    ensures
        endurance_band_spec(lower, max_health) == EnduranceBand::Healthy ==> endurance_band_spec(higher, max_health)
            == EnduranceBand::Healthy,
        endurance_band_spec(higher, max_health) == EnduranceBand::Critical ==> endurance_band_spec(lower, max_health)
            == EnduranceBand::Critical,
        max_health > 0 && higher >= max_health ==> endurance_band_spec(higher, max_health) == EnduranceBand::Healthy,
{
    if max_health > 0 {
        assert(div_toward_zero(max_health, 3) <= div_toward_zero(max_health * 2, 3) <= max_health) by (nonlinear_arith)
            requires
                max_health > 0,
        ;
    }
}

fn third_toward_zero(a: i64) -> (r: i64)
    requires
        a > i64::MIN,
    ensures
        r == div_toward_zero(a as int, 3),
{
    if a >= 0 {
        a / 3
    } else {
        -((-a) / 3)
    }
}

/// The endurance band of the survivor's health.
pub fn endurance_band(health: i32, max_health: i32) -> (band: EnduranceBand)
    requires
        i32::MIN <= max_health * 2 <= i32::MAX,
    ensures
        band == endurance_band_spec(health as int, max_health as int),
{
    let m = max_health as i64;
    if (health as i64) < third_toward_zero(m) {
        EnduranceBand::Critical
    } else if (health as i64) < third_toward_zero(m * 2) {
        EnduranceBand::Wounded
    } else {
        EnduranceBand::Healthy
    }
}

/// How a floating damage number is drawn.
#[derive(Debug, Clone, Copy, PartialEq, Eq, Structural)]
pub enum DamageTone {
    Harm,
    Heal,
    Neutral,
}

/// The look of a floating damage number: its tone, whether a plus sign
/// precedes it, and the magnitude shown.
#[derive(Debug, Clone, Copy, PartialEq, Eq, Structural)]
pub struct DamageTextStyle {
    pub tone: DamageTone,
    pub plus_sign: bool,
    pub magnitude: u32,
}

/// Damage is shown as its magnitude in the harm tone, healing (a negative
/// amount) with a plus sign in the heal tone, zero plainly.
pub fn damage_text_style(amount: i32) -> (style: DamageTextStyle)
    requires
        amount != i32::MIN,
    ensures
        amount > 0 ==> style.tone == DamageTone::Harm && !style.plus_sign && style.magnitude == amount,
        amount < 0 ==> style.tone == DamageTone::Heal && style.plus_sign && style.magnitude == -amount,
        amount == 0 ==> style.tone == DamageTone::Neutral && !style.plus_sign && style.magnitude == 0,
{
    if amount > 0 {
        DamageTextStyle { tone: DamageTone::Harm, plus_sign: false, magnitude: amount as u32 }
    } else if amount < 0 {
        DamageTextStyle { tone: DamageTone::Heal, plus_sign: true, magnitude: (-amount) as u32 }
    } else {
        DamageTextStyle { tone: DamageTone::Neutral, plus_sign: false, magnitude: 0 }
    }
}

/// Which offered card the number keys pick: key one the first card, key two
/// the second, key three the third, each only when that many cards are
/// offered, the lowest pressed key winning.
pub open spec fn keyboard_choice_spec(offered: int, key1: bool, key2: bool, key3: bool) -> Option<usize> {
    if key1 && offered > 0 {
        Some(0)
    } else if key2 && offered > 1 {
        Some(1)
    } else if key3 && offered > 2 {
        Some(2)
    } else {
        None
    }
}

/// The offered card picked by the number keys pressed this frame, if any.
pub fn keyboard_choice(offered: usize, key1: bool, key2: bool, key3: bool) -> (r: Option<usize>)
    ensures
        r == keyboard_choice_spec(offered as int, key1, key2, key3),
        r matches Some(i) ==> i < offered,
{
    if key1 && offered > 0 {
        Some(0)
    } else if key2 && offered > 1 {
        Some(1)
    } else if key3 && offered > 2 {
        Some(2)
    } else {
        None
    }
}

} // verus!

verus! {

/// The weapon index after the debug keys: the next one forward, wrapping to
/// the first, or the one before, wrapping from the first to the last.
pub open spec fn cycled_index(current: int, count: int, forward: bool) -> int {
    if forward {
        (current + 1) % count
    } else if current == 0 {
        count - 1
    } else {
        current - 1
    }
}

/// Steps a weapon index through `count` weapons.
pub fn cycle_weapon_index(current: u32, count: u32, forward: bool) -> (r: u32)
    requires
        count > 0,
        forward ==> current < u32::MAX,
    ensures
        r == cycled_index(current as int, count as int, forward),
{
    if forward {
        (current + 1) % count
    } else if current == 0 {
        count - 1
    } else {
        current - 1
    }
}

/// Stepping forward and then back through the weapons returns to where one
/// started, and so does stepping back and then forward.
pub proof fn weapon_cycle_steps_undo(current: int, count: int)
    requires
        0 <= current < count,
    ensures
        cycled_index(cycled_index(current, count, true), count, false) == current,
        cycled_index(cycled_index(current, count, false), count, true) == current,
        0 <= cycled_index(current, count, true) < count,
        0 <= cycled_index(current, count, false) < count,
{
    if current + 1 < count {
        vstd::arithmetic::div_mod::lemma_small_mod((current + 1) as nat, count as nat);
    } else {
        vstd::arithmetic::div_mod::lemma_mod_self_0(count);
    }
    if current == 0 {
        vstd::arithmetic::div_mod::lemma_mod_self_0(count);
    } else {
        vstd::arithmetic::div_mod::lemma_small_mod(current as nat, count as nat);
    }
}

impl Survivor {
    /// Takes up another inherent weapon: the flat weapon bonuses start over.
    pub fn switch_inherent_weapon(&mut self, weapon: AutomaticWeaponId)
        ensures
            final(self).inherent_weapon_id == weapon,
            final(self).auto_weapon_damage_bonus == 0,
            final(self).auto_weapon_piercing_bonus == 0,
            final(self).auto_weapon_additional_projectiles_bonus == 0,
            final(self).experience == old(self).experience,
            final(self).current_level_xp == old(self).current_level_xp,
            final(self).level == old(self).level,
            final(self).max_health == old(self).max_health,
            final(self).equipped_skills@ == old(self).equipped_skills@,
            final(self).collected_item_ids@ == old(self).collected_item_ids@,
            final(self).auto_attack_bonus_fire_damage == old(self).auto_attack_bonus_fire_damage,
            final(self).auto_attack_bonus_cold_damage == old(self).auto_attack_bonus_cold_damage,
            final(self).auto_attack_bonus_lightning_damage == old(self).auto_attack_bonus_lightning_damage,
            final(self).auto_attack_poison_dps == old(self).auto_attack_poison_dps,
            final(self).auto_attack_aoe_on_hit_damage == old(self).auto_attack_aoe_on_hit_damage,
            final(self).armor == old(self).armor,
            final(self).on_hit_temp_armor_bonus == old(self).on_hit_temp_armor_bonus,
            final(self).after_being_hit_retaliation_nova_damage == old(
                self,
            ).after_being_hit_retaliation_nova_damage,
            final(self).max_dash_charges == old(self).max_dash_charges,
            final(self).shield_on_kill_amount == old(self).shield_on_kill_amount,
            final(self).orbiter_explosion_damage == old(self).orbiter_explosion_damage,
    {
        self.inherent_weapon_id = weapon;
        self.auto_weapon_damage_bonus = 0;
        self.auto_weapon_piercing_bonus = 0;
        self.auto_weapon_additional_projectiles_bonus = 0;
    }
}

/// The debug keys step the survivor's inherent weapon through the library
/// by index: with an empty library nothing happens; otherwise the weapon
/// whose id is the next (or previous) index is taken up, when the library has
/// one, and its definition is returned for the engine to retune the fire
/// timer. When no weapon has that id, nothing changes.
pub fn debug_switch_weapon<'a, A>(
    survivor: &mut Survivor,
    library: &'a AutomaticWeaponLibrary<A>,
    forward: bool,
) -> (r: Option<&'a AutomaticWeaponDefinition<A>>)
    requires
        library.weapons@.len() <= u32::MAX,
        forward ==> old(survivor).inherent_weapon_id.0 < u32::MAX,
    ensures
        library.weapons@.len() == 0 ==> r.is_none(),
        ({
            let target = AutomaticWeaponId(
                cycled_index(
                    old(survivor).inherent_weapon_id.0 as int,
                    library.weapons@.len() as int,
                    forward,
                ) as u32,
            );
            &&& r.is_some() <==> library.weapons@.len() > 0 && library.ids().contains(target)
            &&& r matches Some(d) ==> d.id == target && final(survivor).inherent_weapon_id == target
                && final(survivor).auto_weapon_damage_bonus == 0 && final(survivor).auto_weapon_piercing_bonus
                == 0 && final(survivor).auto_weapon_additional_projectiles_bonus == 0
                && final(survivor).same_stats_but_weapon(*old(survivor))
        }),
        r.is_none() ==> *final(survivor) == *old(survivor),
{
    let count = library.weapons.len() as u32;
    if count == 0 {
        return None;
    }
    let index = cycle_weapon_index(survivor.inherent_weapon_id.0, count, forward);
    let target = AutomaticWeaponId(index);
    match library.get_weapon_definition(target) {
        Some(def) => {
            survivor.switch_inherent_weapon(target);
            Some(def)
        },
        None => None,
    }
}

impl Survivor {
    /// Every field but the inherent weapon and its flat bonuses agrees with
    /// `other`.
    pub open spec fn same_stats_but_weapon(&self, other: Survivor) -> bool {
        &&& self.experience == other.experience
        &&& self.current_level_xp == other.current_level_xp
        &&& self.level == other.level
        &&& self.max_health == other.max_health
        &&& self.equipped_skills@ == other.equipped_skills@
        &&& self.collected_item_ids@ == other.collected_item_ids@
        &&& self.auto_attack_bonus_fire_damage == other.auto_attack_bonus_fire_damage
        &&& self.auto_attack_bonus_cold_damage == other.auto_attack_bonus_cold_damage
        &&& self.auto_attack_bonus_lightning_damage == other.auto_attack_bonus_lightning_damage
        &&& self.auto_attack_poison_dps == other.auto_attack_poison_dps
        &&& self.auto_attack_aoe_on_hit_damage == other.auto_attack_aoe_on_hit_damage
        &&& self.armor == other.armor
        &&& self.on_hit_temp_armor_bonus == other.on_hit_temp_armor_bonus
        &&& self.after_being_hit_retaliation_nova_damage == other.after_being_hit_retaliation_nova_damage
        &&& self.max_dash_charges == other.max_dash_charges
        &&& self.shield_on_kill_amount == other.shield_on_kill_amount
        &&& self.orbiter_explosion_damage == other.orbiter_explosion_damage
    }
}

} // verus!

verus! {

/// Positions, in order, of the displayed relic icons whose relic the
/// survivor no longer holds.
pub open spec fn stale_icon_positions(displayed: Seq<ItemId>, collected: Seq<ItemId>) -> Seq<int>
    decreases displayed.len(),
{
    if displayed.len() == 0 {
        Seq::empty()
    } else {
        let rest = stale_icon_positions(displayed.drop_last(), collected);
        if collected.contains(displayed.last()) { rest } else { rest.push(displayed.len() - 1) }
    }
}

/// The held relics, in collection order, that have no icon yet and that the
/// library defines (an icon needs the definition's picture).
pub open spec fn missing_icons(collected: Seq<ItemId>, displayed: Seq<ItemId>, known: Seq<ItemId>) -> Seq<ItemId>
    decreases collected.len(),
{
    if collected.len() == 0 {
        Seq::empty()
    } else {
        let rest = missing_icons(collected.drop_last(), displayed, known);
        let id = collected.last();
        if !displayed.contains(id) && known.contains(id) { rest.push(id) } else { rest }
    }
}

/// What the relic bar must change: the positions of the icons to remove and
/// the relics whose icons to add.
pub struct IconUpdate {
    pub remove_positions: Vec<usize>,
    pub add_items: Vec<ItemId>,
}

fn contains_id(ids: &Vec<ItemId>, id: ItemId) -> (r: bool)
    ensures
        r == ids@.contains(id),
{
    let mut i: usize = 0;
    while i < ids.len()
        invariant
            i <= ids@.len(),
            forall|j: int| 0 <= j < i ==> ids@[j] != id,
        decreases ids@.len() - i,
    {
        if ids[i] == id {
            return true;
        }
        i = i + 1;
    }
    false
}

/// Brings the relic bar in line with the survivor's collection: icons of
/// relics no longer held go, held relics without an icon get one.
pub fn collected_icons_update<F, C>(
    displayed: &Vec<ItemId>,
    collected: &Vec<ItemId>,
    items: &ItemLibrary<F, C>,
) -> (u: IconUpdate)
    ensures
        u.remove_positions@.len() == stale_icon_positions(displayed@, collected@).len(),
        forall|k: int| 0 <= k < u.remove_positions@.len() ==> u.remove_positions@[k] as int
            == #[trigger] stale_icon_positions(displayed@, collected@)[k],
        u.add_items@ == missing_icons(collected@, displayed@, items.ids()),
{
    let mut remove_positions: Vec<usize> = Vec::new();
    let mut i: usize = 0;
    while i < displayed.len()
        invariant
            i <= displayed@.len(),
            remove_positions@.len() == stale_icon_positions(displayed@.take(i as int), collected@).len(),
            forall|k: int| 0 <= k < remove_positions@.len() ==> remove_positions@[k] as int
                == #[trigger] stale_icon_positions(displayed@.take(i as int), collected@)[k],
        decreases displayed@.len() - i,
    {
        proof {
            assert(displayed@.take(i + 1).drop_last() =~= displayed@.take(i as int));
        }
        if !contains_id(collected, displayed[i]) {
            remove_positions.push(i);
        }
        i = i + 1;
    }
    proof {
        assert(displayed@.take(i as int) =~= displayed@);
    }
    let mut add_items: Vec<ItemId> = Vec::new();
    let mut j: usize = 0;
    while j < collected.len()
        invariant
            j <= collected@.len(),
            add_items@ == missing_icons(collected@.take(j as int), displayed@, items.ids()),
        decreases collected@.len() - j,
    {
        proof {
            assert(collected@.take(j + 1).drop_last() =~= collected@.take(j as int));
        }
        let id = collected[j];
        if !contains_id(displayed, id) {
            match items.get_item_definition(id) {
                Some(_) => {
                    add_items.push(id);
                },
                None => {},
            }
        }
        j = j + 1;
    }
    proof {
        assert(collected@.take(j as int) =~= collected@);
    }
    IconUpdate { remove_positions, add_items }
}

} // verus!
