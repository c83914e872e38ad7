use vstd::prelude::*;
use crate::items::first_position_of;

verus! {

/// Identifier of a skill definition.
#[derive(Debug, Clone, Copy, PartialEq, Eq, Hash, Structural)]
pub struct SkillId(pub u32);

/// The run-time state of one equipped skill. The cooldown is kept in
/// nanoseconds.
#[derive(Debug, Clone, Copy, PartialEq, Eq, Structural)]
pub struct ActiveSkillInstance {
    pub definition_id: SkillId,
    pub current_cooldown: u64,
    pub current_level: u32,
    pub flat_damage_bonus: i32,
}

/// Cooldown left after `delta` nanoseconds elapse: it counts down and stops
/// at zero.
pub open spec fn cooldown_after_tick(cooldown: int, delta: int) -> int {
    if cooldown > delta { cooldown - delta } else { 0 }
}

/// Cooldown left after a series of frame ticks, in order.
pub open spec fn cooldown_after_ticks(cooldown: int, ticks: Seq<u64>) -> int
    decreases ticks.len(),
{
    if ticks.len() == 0 {
        cooldown
    } else {
        cooldown_after_tick(cooldown_after_ticks(cooldown, ticks.drop_last()), ticks.last() as int)
    }
}

/// Total time of a series of frame ticks.
pub open spec fn total_ticks(ticks: Seq<u64>) -> int
    decreases ticks.len(),
{
    if ticks.len() == 0 { 0 } else { total_ticks(ticks.drop_last()) + ticks.last() }
}

/// A skill's cooldown runs down by exactly the time that elapsed: after any
/// series of ticks it is what was left minus the total, and never below
/// zero; so a skill put on a cooldown is ready again once at least that much
/// time has been ticked.
pub proof fn cooldown_runs_down(cooldown: int, ticks: Seq<u64>)
    requires
        cooldown >= 0,
    ensures
        cooldown_after_ticks(cooldown, ticks) == if cooldown > total_ticks(ticks) {
            cooldown - total_ticks(ticks)
        } else {
            0
        },
        total_ticks(ticks) >= cooldown ==> cooldown_after_ticks(cooldown, ticks) == 0,
    decreases ticks.len(),
{
    if ticks.len() > 0 {
        cooldown_runs_down(cooldown, ticks.drop_last());
    }
}

/// The shortest cooldown a cast imposes: a tenth of a second, in nanoseconds.
pub const MIN_SKILL_COOLDOWN_NANOS: u64 = 100_000_000;

impl ActiveSkillInstance {
    /// A freshly learned skill: ready, level 1, no bonus.
    pub fn new(definition_id: SkillId) -> (s: Self)
        ensures
            s.definition_id == definition_id,
            s.current_cooldown == 0,
            s.current_level == 1,
            s.flat_damage_bonus == 0,
    {
        ActiveSkillInstance { definition_id, current_cooldown: 0, current_level: 1, flat_damage_bonus: 0 }
    }

    /// Lets `delta` nanoseconds of cooldown elapse, stopping at zero.
    pub fn tick_cooldown(&mut self, delta: u64)
        ensures
            final(self).current_cooldown == cooldown_after_tick(old(self).current_cooldown as int, delta as int),
            final(self).definition_id == old(self).definition_id,
            final(self).current_level == old(self).current_level,
            final(self).flat_damage_bonus == old(self).flat_damage_bonus,
    {
        if self.current_cooldown > 0 {
            self.current_cooldown = self.current_cooldown.saturating_sub(delta);
        }
    }

    /// Whether the skill can be cast now.
    pub fn is_ready(&self) -> (r: bool)
        ensures
            r == (self.current_cooldown == 0),
    {
        self.current_cooldown == 0
    }

    /// Puts the skill on cooldown after a cast; `cooldown` (nanoseconds) is
    /// the base cooldown scaled by the skill's cooldown multiplier, as the
    /// engine computes it. A cooldown never lasts less than a tenth of a
    /// second, so the skill is not ready right after a cast.
    pub fn trigger(&mut self, cooldown: u64)
        ensures
            final(self).current_cooldown == if cooldown < MIN_SKILL_COOLDOWN_NANOS {
                MIN_SKILL_COOLDOWN_NANOS
            } else {
                cooldown
            },
            final(self).current_cooldown >= MIN_SKILL_COOLDOWN_NANOS,
            final(self).definition_id == old(self).definition_id,
            final(self).current_level == old(self).current_level,
            final(self).flat_damage_bonus == old(self).flat_damage_bonus,
    {
        self.current_cooldown = if cooldown < MIN_SKILL_COOLDOWN_NANOS { MIN_SKILL_COOLDOWN_NANOS } else { cooldown };
    }
}

/// What a skill does when cast. `F` is the type of real-valued tuning, `V` of
/// sizes and `C` of colors; the rules here read only the integer fields.
#[derive(Debug, Clone, Copy, PartialEq)]
pub enum SkillEffectType<F, V, C> {
    Projectile { base_damage: i32, speed: F, size: V, color: C, lifetime_secs: F, piercing: u32 },
    AreaOfEffect { base_damage_per_tick: i32, base_radius: F, tick_interval_secs: F, duration_secs: F, color: C },
    SurvivorBuff { speed_multiplier_bonus: F, fire_rate_multiplier_bonus: F, duration_secs: F },
    SummonSentry {
        sentry_damage_per_tick: i32,
        sentry_radius: F,
        sentry_tick_interval_secs: F,
        sentry_duration_secs: F,
        sentry_color: C,
    },
    FreezingNova { damage: i32, radius: F, nova_duration_secs: F, slow_multiplier: F, slow_duration_secs: F, color: C },
    TemporaryShield { amount: i32, duration_secs: F },
    ChanneledBeam { base_damage_per_tick: i32, tick_interval_secs: F, duration_secs: F, range: F, width: F, color: C },
}

/// The integer power a skill effect carries: damage (per hit or per tick) or
/// shield amount; a self-buff carries none.
pub open spec fn effect_power<F, V, C>(effect: SkillEffectType<F, V, C>) -> Option<i32> {
    match effect {
        SkillEffectType::Projectile { base_damage, .. } => Some(base_damage),
        SkillEffectType::AreaOfEffect { base_damage_per_tick, .. } => Some(base_damage_per_tick),
        SkillEffectType::SurvivorBuff { .. } => None,
        SkillEffectType::SummonSentry { sentry_damage_per_tick, .. } => Some(sentry_damage_per_tick),
        SkillEffectType::FreezingNova { damage, .. } => Some(damage),
        SkillEffectType::TemporaryShield { amount, .. } => Some(amount),
        SkillEffectType::ChanneledBeam { base_damage_per_tick, .. } => Some(base_damage_per_tick),
    }
}

impl<F, V, C> SkillEffectType<F, V, C> {
    /// The effect's integer power, if it carries one.
    pub fn power(&self) -> (r: Option<i32>)
        ensures
            r == effect_power(*self),
    {
        match self {
            SkillEffectType::Projectile { base_damage, .. } => Some(*base_damage),
            SkillEffectType::AreaOfEffect { base_damage_per_tick, .. } => Some(*base_damage_per_tick),
            SkillEffectType::SurvivorBuff { .. } => None,
            SkillEffectType::SummonSentry { sentry_damage_per_tick, .. } => Some(*sentry_damage_per_tick),
            SkillEffectType::FreezingNova { damage, .. } => Some(*damage),
            SkillEffectType::TemporaryShield { amount, .. } => Some(*amount),
            SkillEffectType::ChanneledBeam { base_damage_per_tick, .. } => Some(*base_damage_per_tick),
        }
    }

    /// Whether casting the effect goes off (and puts the skill on cooldown):
    /// projectiles and beams need an aim direction, every other effect goes
    /// off regardless.
    pub fn goes_off(&self, aiming: bool) -> (r: bool)
        ensures
            r == (aiming || !(*self is Projectile || *self is ChanneledBeam)),
    {
        match self {
            SkillEffectType::Projectile { .. } | SkillEffectType::ChanneledBeam { .. } => aiming,
            _ => true,
        }
    }

    /// The effect's power raised by the caster's flat bonus; `None` for an
    /// effect without power.
    pub fn empowered(&self, flat_damage_bonus: i32) -> (r: Option<i32>)
        requires
            effect_power(*self) matches Some(p) ==> i32::MIN <= p + flat_damage_bonus <= i32::MAX,
        ensures
            r == match effect_power(*self) {
                Some(p) => Some((p + flat_damage_bonus) as i32),
                None => None::<i32>,
            },
    {
        match self {
            SkillEffectType::Projectile { base_damage, .. } => Some(*base_damage + flat_damage_bonus),
            SkillEffectType::AreaOfEffect { base_damage_per_tick, .. } => Some(*base_damage_per_tick + flat_damage_bonus),
            SkillEffectType::SurvivorBuff { .. } => None,
            SkillEffectType::SummonSentry { sentry_damage_per_tick, .. } => Some(*sentry_damage_per_tick
                + flat_damage_bonus),
            SkillEffectType::FreezingNova { damage, .. } => Some(*damage + flat_damage_bonus),
            SkillEffectType::TemporaryShield { amount, .. } => Some(*amount + flat_damage_bonus),
            SkillEffectType::ChanneledBeam { base_damage_per_tick, .. } => Some(*base_damage_per_tick
                + flat_damage_bonus),
        }
    }
}

/// Base damage of each fragment of the Mind Shatter burst.
pub const MIND_SHATTER_FRAGMENT_DAMAGE: i32 = 15;

/// The Mind Shatter skill, whose area effect is cast as a burst of fragments.
pub const MIND_SHATTER_SKILL_ID: u32 = 2;

/// Damage of one Mind Shatter fragment for a caster with the given bonus.
pub fn mind_shatter_fragment_damage(flat_damage_bonus: i32) -> (r: i32)
    requires
        MIND_SHATTER_FRAGMENT_DAMAGE + flat_damage_bonus <= i32::MAX,
    ensures
        r == MIND_SHATTER_FRAGMENT_DAMAGE + flat_damage_bonus,
{
    MIND_SHATTER_FRAGMENT_DAMAGE + flat_damage_bonus
}

/// A skill: identity, texts, base cooldown and effect.
pub struct SkillDefinition<F, V, C> {
    pub id: SkillId,
    pub name: String,
    pub description: String,
    pub base_cooldown: std::time::Duration,
    pub effect: SkillEffectType<F, V, C>,
}

/// Every skill the game knows.
pub struct SkillLibrary<F, V, C> {
    pub skills: Vec<SkillDefinition<F, V, C>>,
}

impl<F, V, C> SkillLibrary<F, V, C> {
    /// The ids of the skills, in library order.
    pub open spec fn ids(&self) -> Seq<SkillId> {
        self.skills@.map_values(|d: SkillDefinition<F, V, C>| d.id)
    }

    /// An empty library.
    pub fn default() -> (l: Self)
        ensures
            l.skills@.len() == 0,
    {
        SkillLibrary { skills: Vec::new() }
    }

    /// The first skill with the given id, if the library has one.
    pub fn get_skill_definition(&self, id: SkillId) -> (r: Option<&SkillDefinition<F, V, C>>)
        ensures
            r.is_none() <==> !self.ids().contains(id),
            r matches Some(d) ==> d.id == id && (first_position_of(self.ids(), id) matches Some(k)
                && *d == self.skills@[k] && forall|j: int| 0 <= j < k ==> self.skills@[j].id != id),
    {
        let mut i: usize = 0;
        while i < self.skills.len()
            invariant
                i <= self.skills@.len(),
                first_position_of(self.ids().take(i as int), id).is_none(),
            decreases self.skills@.len() - i,
        {
            proof {
                crate::items::lemma_first_position_step(self.ids(), i as int, id);
            }
            if self.skills[i].id == id {
                proof {
                    crate::items::lemma_first_position_extend(self.ids(), i + 1, id);
                    crate::items::lemma_first_position_none(self.ids(), id);
                    assert forall|j: int| 0 <= j < i implies self.skills@[j].id != id by {
                        assert(self.ids()[j] == self.skills@[j].id);
                    }
                }
                return Some(&self.skills[i]);
            }
            i = i + 1;
        }
        assert(self.ids().take(i as int) =~= self.ids());
        proof {
            crate::items::lemma_first_position_none(self.ids(), id);
        }
        None
    }
}

/// The skill keys pressed this frame.
#[derive(Debug, Clone, Copy, PartialEq, Eq, Structural)]
pub struct SkillInputs {
    pub right_mouse: bool,
    pub key1: bool,
    pub key2: bool,
    pub key3: bool,
    pub key_e: bool,
    pub key_r: bool,
}

/// The skill slot a press selects, by priority: right mouse or 1 selects the
/// first slot, then 2, 3, E and R the second to fifth.
pub open spec fn selected_slot(inputs: SkillInputs) -> Option<usize> {
    if inputs.right_mouse || inputs.key1 { Some(0) }
    else if inputs.key2 { Some(1) }
    else if inputs.key3 { Some(2) }
    else if inputs.key_e { Some(3) }
    else if inputs.key_r { Some(4) }
    else { None }
}

/// The five skill inputs select five different slots: right mouse or 1 the
/// first, then 2, 3, E and R the second to fifth, an earlier input winning
/// when several are pressed. Without a press nothing is selected, and a
/// selected slot is always one of the five.
pub proof fn skill_keys_select_slots(inputs: SkillInputs)
    ensures
        ({
            let r = selected_slot(inputs);
            let earlier_e = inputs.right_mouse || inputs.key1 || inputs.key2 || inputs.key3;
            &&& r.is_none() == !(earlier_e || inputs.key_e || inputs.key_r)
            &&& r matches Some(k) ==> k < 5
            &&& inputs.right_mouse ==> r == Some(0usize)
            &&& inputs.key1 ==> r == Some(0usize)
            &&& !(inputs.right_mouse || inputs.key1) && inputs.key2 ==> r == Some(1usize)
            &&& !(inputs.right_mouse || inputs.key1 || inputs.key2) && inputs.key3 ==> r == Some(2usize)
            &&& !earlier_e && inputs.key_e ==> r == Some(3usize)
            &&& !earlier_e && !inputs.key_e && inputs.key_r ==> r == Some(4usize)
        }),
{
}

/// The skill slot this frame's presses select, if any.
pub fn skill_slot_for_input(inputs: &SkillInputs) -> (r: Option<usize>)
    ensures
        r == selected_slot(*inputs),
{
    if inputs.right_mouse {
        Some(0)
    } else if inputs.key1 {
        Some(0)
    } else if inputs.key2 {
        Some(1)
    } else if inputs.key3 {
        Some(2)
    } else if inputs.key_e {
        Some(3)
    } else if inputs.key_r {
        Some(4)
    } else {
        None
    }
}

/// The slot of the skill to cast this frame: the selected slot, provided it
/// holds a skill and that skill is ready.
pub fn skill_to_cast(equipped: &Vec<ActiveSkillInstance>, inputs: &SkillInputs) -> (r: Option<usize>)
    ensures
        r == match selected_slot(*inputs) {
            Some(i) => if i < equipped@.len() && equipped@[i as int].current_cooldown == 0 { Some(i) } else { None },
            None => None::<usize>,
        },
{
    match skill_slot_for_input(inputs) {
        Some(idx) => {
            if idx >= equipped.len() {
                return None;
            }
            if equipped[idx].is_ready() { Some(idx) } else { None }
        },
        None => None,
    }
}

} // verus!
