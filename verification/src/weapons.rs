use vstd::prelude::*;

verus! {

/// The integer state of the Circle of Warding aura: whether it is inscribed
/// and the damage it deals per tick. Radius and tick timing are kept by the
/// engine.
#[derive(Debug, Clone, Copy, PartialEq, Eq, Structural)]
pub struct CircleOfWarding {
    pub is_active: bool,
    pub base_damage_per_tick: i32,
}

impl CircleOfWarding {
    /// A dormant circle that will deal 3 damage per tick once inscribed.
    pub fn default() -> (c: Self)
        ensures
            !c.is_active,
            c.base_damage_per_tick == 3,
    {
        CircleOfWarding { is_active: false, base_damage_per_tick: 3 }
    }
}

/// Most nightmare larvae a relic can grow the swarm to.
pub const MAX_RELIC_LARVAE: u32 = 8;

/// The integer state of the Swarm of Nightmares orbiters: whether it is
/// manifest, how many larvae orbit and the damage each deals per hit. Orbit
/// radius and rotation speed are kept by the engine.
#[derive(Debug, Clone, Copy, PartialEq, Eq, Structural)]
pub struct SwarmOfNightmares {
    pub is_active: bool,
    pub num_larvae: u32,
    pub damage_per_hit: i32,
}

impl SwarmOfNightmares {
    /// A swarm that has not manifested yet.
    pub fn dormant(num_larvae: u32, damage_per_hit: i32) -> (s: Self)
        ensures
            !s.is_active,
            s.num_larvae == num_larvae,
            s.damage_per_hit == damage_per_hit,
    {
        SwarmOfNightmares { is_active: false, num_larvae, damage_per_hit }
    }
}

/// Damage an aura tick deals to a horror inside it.
pub fn aura_tick_damage(circle: &CircleOfWarding) -> (r: Option<i32>)
    ensures
        r == if circle.is_active { Some(circle.base_damage_per_tick) } else { None::<i32> },
{
    if circle.is_active { Some(circle.base_damage_per_tick) } else { None }
}

/// What a cone sweep does to one horror caught in it.
#[derive(Debug, Clone, Copy, PartialEq, Eq, Structural)]
pub struct ConeStrike {
    /// The horror's health after the hit.
    pub health: i32,
    /// Whether the horror is set burning.
    pub burns: bool,
}

/// Whether a cone weapon sets horrors burning: it is marked as burning and
/// gives the burn's damage, duration and tick interval. `F` is the type of
/// the real-valued duration and interval.
pub fn cone_burns<F>(
    applies_burn: Option<bool>,
    burn_damage_per_tick: Option<i32>,
    burn_duration_secs: &Option<F>,
    burn_tick_interval_secs: &Option<F>,
) -> (r: bool)
    ensures
        r == (applies_burn == Some(true) && burn_damage_per_tick is Some && burn_duration_secs is Some
            && burn_tick_interval_secs is Some),
{
    match (applies_burn, burn_damage_per_tick, burn_duration_secs, burn_tick_interval_secs) {
        (Some(true), Some(_), Some(_), Some(_)) => true,
        _ => false,
    }
}

/// A cone sweep hits a horror of health `health` for `damage`: its health
/// drops, stopping at the bounds of `i32`, and it starts burning when the
/// weapon burns and the horror survived the hit.
pub fn cone_strike(health: i32, damage: i32, weapon_burns: bool) -> (r: ConeStrike)
    ensures
        r.health == crate::combat::damage_horror_spec(health as int, damage as int),
        r.burns == (weapon_burns && r.health > 0),
{
    let after = crate::combat::damage_horror(health, damage);
    ConeStrike { health: after, burns: weapon_burns && after > 0 }
}

} // verus!

verus! {

/// The weapon that carries a spark aura while equipped: Chain Lightning.
pub const SPARK_AURA_WEAPON: u32 = 5;

/// What to do with the survivor's spark aura this frame.
#[derive(Debug, Clone, Copy, PartialEq, Eq, Structural)]
pub enum SparkAuraAction {
    /// Add the aura and its visual.
    Attach,
    /// The aura is there but its visual is gone: spawn the visual again.
    RestoreVisual,
    /// Leave everything as it is.
    Keep,
    /// Take the aura (and its visual, if any) away.
    Detach,
}

/// The spark aura goes with Chain Lightning: it is attached when that weapon
/// is equipped and the aura is missing, its visual restored when lost, and
/// it is detached when another weapon is equipped.
pub fn spark_aura_action(
    weapon: crate::items::AutomaticWeaponId,
    has_aura: bool,
    has_visual: bool,
) -> (action: SparkAuraAction)
    ensures
        weapon.0 == SPARK_AURA_WEAPON && !has_aura ==> action == SparkAuraAction::Attach,
        weapon.0 == SPARK_AURA_WEAPON && has_aura && !has_visual ==> action == SparkAuraAction::RestoreVisual,
        weapon.0 == SPARK_AURA_WEAPON && has_aura && has_visual ==> action == SparkAuraAction::Keep,
        weapon.0 != SPARK_AURA_WEAPON && has_aura ==> action == SparkAuraAction::Detach,
        weapon.0 != SPARK_AURA_WEAPON && !has_aura ==> action == SparkAuraAction::Keep,
{
    if weapon.0 == SPARK_AURA_WEAPON {
        if !has_aura {
            SparkAuraAction::Attach
        } else if !has_visual {
            SparkAuraAction::RestoreVisual
        } else {
            SparkAuraAction::Keep
        }
    } else if has_aura {
        SparkAuraAction::Detach
    } else {
        SparkAuraAction::Keep
    }
}

} // verus!
