use vstd::prelude::*;
use crate::items::{ItemEffect, ItemId, ItemLibrary, SurvivorTemporaryBuff};
use crate::skills::{ActiveSkillInstance, SkillId, SkillLibrary};
use crate::survivor::{can_learn, Survivor, skills_well_formed};
use crate::weapons::{CircleOfWarding, SwarmOfNightmares, MAX_RELIC_LARVAE};

verus! {

/// The part of the game state that relic effects change, with integer fields
/// as mathematical integers.
pub struct RelicState {
    pub max_health: int,
    pub damage_bonus: int,
    pub equipped: Seq<ActiveSkillInstance>,
    pub health: Option<int>,
    pub circle: Option<(bool, int)>,
    pub swarm: Option<(bool, int, int)>,
    pub applied: bool,
}

/// One relic effect applied to the state. `known` lists the skills the game
/// defines. A stat boost raises maximum health (healing by the same amount,
/// capped) and weapon damage; a skill tome teaches its skill when it can; a
/// wardstone inscribes the circle or strengthens it; an oculus manifests the
/// swarm or grows it. A tome that cannot teach, or an aura relic without its
/// aura, marks the relic as not applied. Other effects act later, in combat.
pub open spec fn relic_step<F, C>(s: RelicState, e: ItemEffect<F, C>, known: Seq<SkillId>) -> RelicState {
    match e {
        ItemEffect::PassiveStatBoost { max_health_increase, damage_increase, .. } => {
            let s1 = match max_health_increase {
                Some(hp) => {
                    let m = s.max_health + hp;
                    RelicState {
                        max_health: m,
                        health: match s.health {
                            Some(h) => Some(if h + hp < m { h + hp } else { m }),
                            None => None,
                        },
                        ..s
                    }
                },
                None => s,
            };
            match damage_increase {
                Some(d) => RelicState { damage_bonus: s1.damage_bonus + d, ..s1 },
                None => s1,
            }
        },
        ItemEffect::GrantSpecificSkill { skill_id } => {
            if can_learn(s.equipped, known, skill_id) {
                RelicState {
                    equipped: s.equipped.push(ActiveSkillInstance {
                        definition_id: skill_id,
                        current_cooldown: 0,
                        current_level: 1,
                        flat_damage_bonus: 0,
                    }),
                    ..s
                }
            } else {
                RelicState { applied: false, ..s }
            }
        },
        ItemEffect::ActivateCircleOfWarding { base_damage, .. } => match s.circle {
            Some((active, damage)) => if !active {
                RelicState { circle: Some((true, base_damage as int)), ..s }
            } else {
                RelicState { circle: Some((true, damage + 1)), ..s }
            },
            None => RelicState { applied: false, ..s },
        },
        ItemEffect::ActivateSwarmOfNightmares { num_larvae, base_damage, .. } => match s.swarm {
            Some((active, count, damage)) => if !active {
                RelicState { swarm: Some((true, num_larvae as int, base_damage as int)), ..s }
            } else {
                RelicState {
                    swarm: Some((true, if count + 1 < MAX_RELIC_LARVAE { count + 1 } else { MAX_RELIC_LARVAE as int },
                        damage + 1)),
                    ..s
                }
            },
            None => RelicState { applied: false, ..s },
        },
        _ => s,
    }
}

/// Every integer of the state fits its machine type.
pub open spec fn relic_state_fits(s: RelicState) -> bool {
    &&& i32::MIN <= s.max_health <= i32::MAX
    &&& i32::MIN <= s.damage_bonus <= i32::MAX
    &&& (s.health matches Some(h) ==> i32::MIN <= h <= i32::MAX)
    &&& (s.circle matches Some((a, d)) ==> i32::MIN <= d <= i32::MAX)
    &&& (s.swarm matches Some((a, n, d)) ==> 0 <= n <= u32::MAX && i32::MIN <= d <= i32::MAX)
}

/// One effect applies without overflow: the intermediate health sum and every
/// resulting integer fit their machine types.
pub open spec fn relic_step_fits<F, C>(s: RelicState, e: ItemEffect<F, C>, known: Seq<SkillId>) -> bool {
    &&& (e matches ItemEffect::PassiveStatBoost { max_health_increase: Some(hp), .. } ==> (s.health matches Some(h)
        ==> i32::MIN <= h + hp <= i32::MAX))
    &&& (e is ActivateSwarmOfNightmares ==> (s.swarm matches Some((a, n, d)) ==> (a ==> n + 1 <= u32::MAX)))
    &&& relic_state_fits(relic_step(s, e, known))
}

/// The state after applying effects in order.
pub open spec fn relic_fold<F, C>(s: RelicState, effects: Seq<ItemEffect<F, C>>, known: Seq<SkillId>) -> RelicState
    decreases effects.len(),
{
    if effects.len() == 0 {
        s
    } else {
        relic_step(relic_fold(s, effects.drop_last(), known), effects.last(), known)
    }
}

/// Every effect in order applies without overflow.
pub open spec fn relic_fold_fits<F, C>(s: RelicState, effects: Seq<ItemEffect<F, C>>, known: Seq<SkillId>) -> bool
    decreases effects.len(),
{
    if effects.len() == 0 {
        relic_state_fits(s)
    } else {
        relic_fold_fits(s, effects.drop_last(), known) && relic_step_fits(relic_fold(s, effects.drop_last(), known),
            effects.last(), known)
    }
}

/// The relic-relevant state of the game, read from its parts.
pub open spec fn relic_view(
    survivor: Survivor,
    health: Option<i32>,
    circle: Option<CircleOfWarding>,
    swarm: Option<SwarmOfNightmares>,
    applied: bool,
) -> RelicState {
    RelicState {
        max_health: survivor.max_health as int,
        damage_bonus: survivor.auto_weapon_damage_bonus as int,
        equipped: survivor.equipped_skills@,
        health: match health {
            Some(h) => Some(h as int),
            None => None,
        },
        circle: match circle {
            Some(c) => Some((c.is_active, c.base_damage_per_tick as int)),
            None => None,
        },
        swarm: match swarm {
            Some(w) => Some((w.is_active, w.num_larvae as int, w.damage_per_hit as int)),
            None => None,
        },
        applied,
    }
}

/// Whether an aura is there and active.
pub open spec fn aura_active(present_and_active: Option<bool>) -> bool {
    present_and_active == Some(true)
}

/// The circle of a relic state: whether it is there and active.
pub open spec fn circle_on(s: RelicState) -> Option<bool> {
    match s.circle {
        Some((a, _)) => Some(a),
        None => None,
    }
}

/// The swarm of a relic state: whether it is there and manifest.
pub open spec fn swarm_on(s: RelicState) -> Option<bool> {
    match s.swarm {
        Some((a, _, _)) => Some(a),
        None => None,
    }
}

/// What one aura relic effect does. A wardstone leaves the survivor's circle
/// active: a dormant circle takes the wardstone's damage, an inscribed one
/// gains one damage. An oculus leaves the swarm manifest: a dormant swarm
/// takes the oculus's larvae and damage, a manifest one gains one larva (up
/// to the relic maximum) and one damage. Without the aura the relic is marked
/// not applied and nothing else changes. No effect ever removes an aura or
/// makes an active one dormant.
pub proof fn aura_relic_effects<F, C>(s: RelicState, e: ItemEffect<F, C>, known: Seq<SkillId>)
    ensures
        ({
            let n = relic_step(s, e, known);
            &&& e matches ItemEffect::ActivateCircleOfWarding { base_damage, .. } ==> match s.circle {
                Some((active, damage)) => n.circle == Some((true, if active { damage + 1 } else { base_damage as int }))
                    && n.applied == s.applied,
                None => n.circle.is_none() && !n.applied,
            }
            &&& e matches ItemEffect::ActivateSwarmOfNightmares { num_larvae, base_damage, .. } ==> match s.swarm {
                Some((active, count, damage)) => n.swarm == Some(
                    if active {
                        (true, if count + 1 < MAX_RELIC_LARVAE { count + 1 } else { MAX_RELIC_LARVAE as int }, damage
                            + 1)
                    } else {
                        (true, num_larvae as int, base_damage as int)
                    },
                ) && n.applied == s.applied,
                None => n.swarm.is_none() && !n.applied,
            }
            &&& !(e is ActivateCircleOfWarding) ==> n.circle == s.circle
            &&& !(e is ActivateSwarmOfNightmares) ==> n.swarm == s.swarm
            &&& s.circle.is_some() == n.circle.is_some()
            &&& s.swarm.is_some() == n.swarm.is_some()
            &&& aura_active(circle_on(s)) ==> aura_active(circle_on(n))
            &&& aura_active(swarm_on(s)) ==> aura_active(swarm_on(n))
        }),
{
}

/// Over a whole relic: a circle the survivor has is active after a relic with
/// a wardstone effect, and a swarm it has is manifest after a relic with an
/// oculus effect; an aura that was active stays active.
pub proof fn aura_relics_activate<F, C>(s: RelicState, effects: Seq<ItemEffect<F, C>>, known: Seq<SkillId>)
    ensures
        ({
            let n = relic_fold(s, effects, known);
            &&& s.circle.is_some() == n.circle.is_some()
            &&& s.swarm.is_some() == n.swarm.is_some()
            &&& aura_active(circle_on(s)) ==> aura_active(circle_on(n))
            &&& aura_active(swarm_on(s)) ==> aura_active(swarm_on(n))
            &&& s.circle.is_some() && (exists|k: int| 0 <= k < effects.len() && effects[k] is ActivateCircleOfWarding)
                ==> aura_active(circle_on(n))
            &&& s.swarm.is_some() && (exists|k: int| 0 <= k < effects.len() && effects[k] is ActivateSwarmOfNightmares)
                ==> aura_active(swarm_on(n))
        }),
    decreases effects.len(),
{
    if effects.len() > 0 {
        let rest = effects.drop_last();
        aura_relics_activate(s, rest, known);
        let mid = relic_fold(s, rest, known);
        aura_relic_effects(mid, effects.last(), known);
        if s.circle.is_some() && (exists|k: int| 0 <= k < effects.len() && effects[k] is ActivateCircleOfWarding) {
            let k = choose|k: int| 0 <= k < effects.len() && effects[k] is ActivateCircleOfWarding;
            if k < effects.len() - 1 {
                assert(rest[k] == effects[k]);
            }
        }
        if s.swarm.is_some() && (exists|k: int| 0 <= k < effects.len() && effects[k] is ActivateSwarmOfNightmares) {
            let k = choose|k: int| 0 <= k < effects.len() && effects[k] is ActivateSwarmOfNightmares;
            if k < effects.len() - 1 {
                assert(rest[k] == effects[k]);
            }
        }
    }
}

/// How the engine should finish collecting a relic (its real-valued parts).
#[derive(Debug, Clone, Copy, PartialEq, Eq, Structural)]
pub struct CollectionReport {
    /// The relic was not collected before this pickup.
    pub is_new: bool,
    /// The library defines the relic.
    pub known: bool,
    /// The relic was added to the collection.
    pub recorded: bool,
}

/// Folding one more effect applies it to the state folded so far.
proof fn lemma_fold_step<F, C>(s: RelicState, effects: Seq<ItemEffect<F, C>>, i: int, known: Seq<SkillId>)
    requires
        0 <= i < effects.len(),
    ensures
        relic_fold(s, effects.take(i + 1), known) == relic_step(relic_fold(s, effects.take(i), known), effects[i], known),
        relic_fold_fits(s, effects.take(i + 1), known) == (relic_fold_fits(s, effects.take(i), known)
            && relic_step_fits(relic_fold(s, effects.take(i), known), effects[i], known)),
{
    assert(effects.take(i + 1).drop_last() =~= effects.take(i));
}

/// Effects that apply without overflow apply so in every prefix too.
proof fn lemma_fold_fits_prefix<F, C>(s: RelicState, effects: Seq<ItemEffect<F, C>>, i: int, known: Seq<SkillId>)
    requires
        0 <= i <= effects.len(),
        relic_fold_fits(s, effects, known),
    ensures
        relic_fold_fits(s, effects.take(i), known),
    decreases effects.len() - i,
{
    if i == effects.len() {
        assert(effects.take(i) =~= effects);
    } else {
        lemma_fold_fits_prefix(s, effects, i + 1, known);
        lemma_fold_step(s, effects, i, known);
    }
}

/// Applies one relic effect to the survivor, its health and its auras.
fn apply_relic_effect<F, C, FS, VS, CS>(
    survivor: &mut Survivor,
    health: &mut Option<i32>,
    circle: &mut Option<CircleOfWarding>,
    swarm: &mut Option<SwarmOfNightmares>,
    applied: &mut bool,
    effect: &ItemEffect<F, C>,
    skills: &SkillLibrary<FS, VS, CS>,
)
    requires
        relic_step_fits(relic_view(*old(survivor), *old(health), *old(circle), *old(swarm), *old(applied)), *effect,
            skills.ids()),
    ensures
        relic_view(*final(survivor), *final(health), *final(circle), *final(swarm), *final(applied)) == relic_step(
            relic_view(*old(survivor), *old(health), *old(circle), *old(swarm), *old(applied)), *effect, skills.ids()),
        final(survivor).collected_item_ids@ == old(survivor).collected_item_ids@,
        final(survivor).same_apart_from_relics(*old(survivor)),
{
    match effect {
        ItemEffect::PassiveStatBoost { max_health_increase, damage_increase, .. } => {
            match max_health_increase {
                Some(hp) => {
                    survivor.max_health = survivor.max_health + *hp;
                    match health {
                        Some(h) => {
                            let raised = *h + *hp;
                            *h = if raised < survivor.max_health { raised } else { survivor.max_health };
                        },
                        None => {},
                    }
                },
                None => {},
            }
            match damage_increase {
                Some(d) => {
                    survivor.auto_weapon_damage_bonus = survivor.auto_weapon_damage_bonus + *d;
                },
                None => {},
            }
        },
        ItemEffect::GrantSpecificSkill { skill_id } => {
            let granted = survivor.grant_skill(*skill_id, skills);
            if !granted {
                *applied = false;
            }
        },
        ItemEffect::ActivateCircleOfWarding { base_damage, .. } => {
            match circle {
                Some(c) => {
                    if !c.is_active {
                        c.is_active = true;
                        c.base_damage_per_tick = *base_damage;
                    } else {
                        c.base_damage_per_tick = c.base_damage_per_tick + 1;
                    }
                },
                None => {
                    *applied = false;
                },
            }
        },
        ItemEffect::ActivateSwarmOfNightmares { num_larvae, base_damage, .. } => {
            match swarm {
                Some(w) => {
                    if !w.is_active {
                        w.is_active = true;
                        w.num_larvae = *num_larvae;
                        w.damage_per_hit = *base_damage;
                    } else {
                        let grown = w.num_larvae + 1;
                        w.num_larvae = if grown < MAX_RELIC_LARVAE { grown } else { MAX_RELIC_LARVAE };
                        w.damage_per_hit = w.damage_per_hit + 1;
                    }
                },
                None => {
                    *applied = false;
                },
            }
        },
        _ => {},
    }
}

} // verus!

verus! {

impl Survivor {
    /// Every field that relics leave alone agrees with `other`: all but the
    /// maximum health, the weapon damage bonus, the equipped skills and the
    /// collected relics.
    pub open spec fn same_apart_from_relics(&self, other: Survivor) -> bool {
        &&& self.experience == other.experience
        &&& self.current_level_xp == other.current_level_xp
        &&& self.level == other.level
        &&& self.auto_weapon_piercing_bonus == other.auto_weapon_piercing_bonus
        &&& self.auto_weapon_additional_projectiles_bonus == other.auto_weapon_additional_projectiles_bonus
        &&& self.inherent_weapon_id == other.inherent_weapon_id
        &&& self.auto_attack_bonus_fire_damage == other.auto_attack_bonus_fire_damage
        &&& self.auto_attack_bonus_cold_damage == other.auto_attack_bonus_cold_damage
        &&& self.auto_attack_bonus_lightning_damage == other.auto_attack_bonus_lightning_damage
        &&& self.auto_attack_poison_dps == other.auto_attack_poison_dps
        &&& self.auto_attack_aoe_on_hit_damage == other.auto_attack_aoe_on_hit_damage
        &&& self.armor == other.armor
        &&& self.on_hit_temp_armor_bonus == other.on_hit_temp_armor_bonus
        &&& self.after_being_hit_retaliation_nova_damage == other.after_being_hit_retaliation_nova_damage
        &&& self.max_dash_charges == other.max_dash_charges
        &&& self.shield_on_kill_amount == other.shield_on_kill_amount
        &&& self.orbiter_explosion_damage == other.orbiter_explosion_damage
    }
}

/// The definition a lookup of `id` finds: the first with that id.
pub open spec fn found_definition<F, C>(items: ItemLibrary<F, C>, id: ItemId) -> crate::items::ItemDefinition<F, C> {
    items.items@[crate::items::first_position_of(items.ids(), id).unwrap()]
}

impl Survivor {
    /// Whether the relic is already in the collection.
    pub fn has_collected(&self, id: ItemId) -> (r: bool)
        ensures
            r == self.collected_item_ids@.contains(id),
    {
        let mut i: usize = 0;
        while i < self.collected_item_ids.len()
            invariant
                i <= self.collected_item_ids@.len(),
                forall|j: int| 0 <= j < i ==> self.collected_item_ids@[j] != id,
            decreases self.collected_item_ids@.len() - i,
        {
            if self.collected_item_ids[i] == id {
                return true;
            }
            i = i + 1;
        }
        false
    }

    /// Picks up a relic. A relic the library defines and the survivor does not
    /// hold yet has its effects applied in order; it joins the collection
    /// unless one of its effects could not be applied (a tome whose skill
    /// cannot be learned, an aura relic without its aura). A relic already
    /// held, or unknown to the library, changes nothing.
    pub fn collect_item<F, C, FS, VS, CS>(
        &mut self,
        item_id: ItemId,
        items: &ItemLibrary<F, C>,
        skills: &SkillLibrary<FS, VS, CS>,
        health: &mut Option<i32>,
        circle: &mut Option<CircleOfWarding>,
        swarm: &mut Option<SwarmOfNightmares>,
    ) -> (report: CollectionReport)
        requires
            items.ids().contains(item_id) && !old(self).collected_item_ids@.contains(item_id) ==> relic_fold_fits(
                relic_view(*old(self), *old(health), *old(circle), *old(swarm), true),
                found_definition(*items, item_id).effects@, skills.ids()),
        ensures
            report.is_new == !old(self).collected_item_ids@.contains(item_id),
            report.known == items.ids().contains(item_id),
            !(report.is_new && report.known) ==> {
                &&& *final(self) == *old(self)
                &&& *final(health) == *old(health)
                &&& *final(circle) == *old(circle)
                &&& *final(swarm) == *old(swarm)
                &&& !report.recorded
            },
            final(self).same_apart_from_relics(*old(self)),
            report.is_new && report.known ==> {
                let after = relic_fold(relic_view(*old(self), *old(health), *old(circle), *old(swarm), true),
                    found_definition(*items, item_id).effects@, skills.ids());
                &&& relic_view(*final(self), *final(health), *final(circle), *final(swarm), report.recorded) == after
                &&& report.recorded == after.applied
                &&& final(self).collected_item_ids@ == if report.recorded {
                        old(self).collected_item_ids@.push(item_id) } else { old(self).collected_item_ids@ }
            },
            final(self).level == old(self).level,
            final(self).experience == old(self).experience,
            final(self).current_level_xp == old(self).current_level_xp,
            skills_well_formed(old(self).equipped_skills@) ==> skills_well_formed(final(self).equipped_skills@),
            old(self).collected_item_ids@.no_duplicates() ==> final(self).collected_item_ids@.no_duplicates(),
            report.is_new && report.known && old(circle).is_some() && (exists|k: int|
                0 <= k < found_definition(*items, item_id).effects@.len() && found_definition(
                    *items,
                    item_id,
                ).effects@[k] is ActivateCircleOfWarding) ==> final(circle).is_some() && final(circle).unwrap().is_active,
            report.is_new && report.known && old(swarm).is_some() && (exists|k: int|
                0 <= k < found_definition(*items, item_id).effects@.len() && found_definition(
                    *items,
                    item_id,
                ).effects@[k] is ActivateSwarmOfNightmares) ==> final(swarm).is_some() && final(swarm).unwrap().is_active,
            report.is_new && report.known && old(circle).is_some() && !old(circle).unwrap().is_active
                && found_definition(*items, item_id).effects@.len() == 1 && found_definition(
                *items,
                item_id,
            ).effects@[0] is ActivateCircleOfWarding ==> *final(circle) == Some(
                CircleOfWarding {
                    is_active: true,
                    base_damage_per_tick: found_definition(*items, item_id).effects@[0]->ActivateCircleOfWarding_base_damage,
                },
            ),
    {
        let is_new = !self.has_collected(item_id);
        let def = match items.get_item_definition(item_id) {
            Some(d) => d,
            None => {
                return CollectionReport { is_new, known: false, recorded: false };
            },
        };
        if !is_new {
            return CollectionReport { is_new, known: true, recorded: false };
        }
        let ghost start = relic_view(*self, *health, *circle, *swarm, true);
        let ghost effects = def.effects@;
        let mut applied = true;
        let mut i: usize = 0;
        proof {
            lemma_fold_fits_prefix(start, effects, 0, skills.ids());
            assert(effects.take(0) =~= Seq::<ItemEffect<F, C>>::empty());
        }
        while i < def.effects.len()
            invariant
                i <= effects.len(),
                effects == def.effects@,
                relic_fold_fits(start, effects, skills.ids()),
                relic_view(*self, *health, *circle, *swarm, applied) == relic_fold(start, effects.take(i as int),
                    skills.ids()),
                self.collected_item_ids@ == old(self).collected_item_ids@,
                self.level == old(self).level,
                self.experience == old(self).experience,
                self.current_level_xp == old(self).current_level_xp,
                self.same_apart_from_relics(*old(self)),
                skills_well_formed(old(self).equipped_skills@) ==> skills_well_formed(self.equipped_skills@),
            decreases effects.len() - i,
        {
            proof {
                lemma_fold_fits_prefix(start, effects, i + 1, skills.ids());
                lemma_fold_step(start, effects, i as int, skills.ids());
            }
            apply_relic_effect(self, health, circle, swarm, &mut applied, &def.effects[i], skills);
            i = i + 1;
        }
        assert(effects.take(i as int) =~= effects);
        proof {
            aura_relics_activate(start, effects, skills.ids());
            if effects.len() == 1 {
                aura_relic_effects(start, effects[0], skills.ids());
                assert(effects.drop_last().len() == 0);
            }
        }
        if applied {
            self.collected_item_ids.push(item_id);
        }
        CollectionReport { is_new, known: true, recorded: applied }
    }
}

} // verus!

verus! {

/// The on-kill triggers among a relic's effects, in order: each trigger's
/// chance and the buff it grants.
pub open spec fn kill_triggers_in<F, C>(effects: Seq<ItemEffect<F, C>>) -> Seq<(F, SurvivorTemporaryBuff<F>)>
    decreases effects.len(),
{
    if effects.len() == 0 {
        Seq::empty()
    } else {
        let rest = kill_triggers_in(effects.drop_last());
        match effects.last() {
            ItemEffect::OnHorrorKillTrigger { chance, effect } => rest.push((chance, effect)),
            _ => rest,
        }
    }
}

/// The on-kill triggers of the held relics, relic by relic in the order they
/// were collected; a relic the library does not define contributes none.
pub open spec fn held_kill_triggers<F, C>(held: Seq<ItemId>, items: ItemLibrary<F, C>) -> Seq<
    (F, SurvivorTemporaryBuff<F>),
>
    decreases held.len(),
{
    if held.len() == 0 {
        Seq::empty()
    } else {
        let rest = held_kill_triggers(held.drop_last(), items);
        let id = held.last();
        if items.ids().contains(id) {
            rest + kill_triggers_in(found_definition(items, id).effects@)
        } else {
            rest
        }
    }
}

impl Survivor {
    /// The on-kill triggers of the relics the survivor holds, for the engine
    /// to roll each time a horror dies.
    pub fn kill_triggers<F: Copy, C>(&self, items: &ItemLibrary<F, C>) -> (r: Vec<(F, SurvivorTemporaryBuff<F>)>)
        ensures
            r@ == held_kill_triggers(self.collected_item_ids@, *items),
    {
        let mut r: Vec<(F, SurvivorTemporaryBuff<F>)> = Vec::new();
        let mut i: usize = 0;
        while i < self.collected_item_ids.len()
            invariant
                i <= self.collected_item_ids@.len(),
                r@ == held_kill_triggers(self.collected_item_ids@.take(i as int), *items),
            decreases self.collected_item_ids@.len() - i,
        {
            let id = self.collected_item_ids[i];
            let ghost before = r@;
            proof {
                assert(self.collected_item_ids@.take(i + 1).drop_last() =~= self.collected_item_ids@.take(
                    i as int,
                ));
            }
            match items.get_item_definition(id) {
                Some(def) => {
                    let mut j: usize = 0;
                    while j < def.effects.len()
                        invariant
                            j <= def.effects@.len(),
                            r@ == before + kill_triggers_in(def.effects@.take(j as int)),
                        decreases def.effects@.len() - j,
                    {
                        proof {
                            assert(def.effects@.take(j + 1).drop_last() =~= def.effects@.take(j as int));
                        }
                        match &def.effects[j] {
                            ItemEffect::OnHorrorKillTrigger { chance, effect } => {
                                r.push((*chance, *effect));
                            },
                            _ => {},
                        }
                        proof {
                            assert(r@ =~= before + kill_triggers_in(def.effects@.take(j + 1)));
                        }
                        j = j + 1;
                    }
                    proof {
                        assert(def.effects@.take(j as int) =~= def.effects@);
                    }
                },
                None => {},
            }
            i = i + 1;
        }
        proof {
            assert(self.collected_item_ids@.take(i as int) =~= self.collected_item_ids@);
        }
        r
    }
}

impl<F, C> ItemLibrary<F, C> {
    /// A relic of the library picked at random, as a drop; none from an empty
    /// library.
    pub fn random_relic(&self) -> (r: Option<ItemId>)
        ensures
            r.is_none() <==> self.items@.len() == 0,
            r matches Some(id) ==> self.ids().contains(id),
    {
        match crate::random::choose_from(&self.items) {
            Some(def) => {
                proof {
                    let k = choose|k: int| 0 <= k < self.items@.len() && self.items@[k] == *def;
                    assert(self.ids()[k] == def.id);
                }
                Some(def.id)
            },
            None => None,
        }
    }
}

} // verus!

verus! {

/// A retaliation a relic grants when the survivor is struck: its chance, the
/// nova's damage and radius, and its color.
#[derive(Debug, Clone, Copy, PartialEq)]
pub struct Retaliation<F, C> {
    pub chance: F,
    pub damage: i32,
    pub radius: F,
    pub color: C,
}

/// The retaliations among a relic's effects, in order.
pub open spec fn retaliations_in<F, C>(effects: Seq<ItemEffect<F, C>>) -> Seq<Retaliation<F, C>>
    decreases effects.len(),
{
    if effects.len() == 0 {
        Seq::empty()
    } else {
        let rest = retaliations_in(effects.drop_last());
        match effects.last() {
            ItemEffect::OnSurvivorHitRetaliate { chance, retaliation_damage, retaliation_radius, retaliation_color } =>
                rest.push(Retaliation { chance, damage: retaliation_damage, radius: retaliation_radius, color: retaliation_color }),
            _ => rest,
        }
    }
}

/// The retaliations of the held relics, relic by relic in the order they
/// were collected; a relic the library does not define contributes none.
pub open spec fn held_retaliations<F, C>(held: Seq<ItemId>, items: ItemLibrary<F, C>) -> Seq<Retaliation<F, C>>
    decreases held.len(),
{
    if held.len() == 0 {
        Seq::empty()
    } else {
        let rest = held_retaliations(held.drop_last(), items);
        let id = held.last();
        if items.ids().contains(id) {
            rest + retaliations_in(found_definition(items, id).effects@)
        } else {
            rest
        }
    }
}

impl Survivor {
    /// The retaliations of the relics the survivor holds, for the engine to
    /// roll each time the survivor takes a hit.
    pub fn retaliations<F: Copy, C: Copy>(&self, items: &ItemLibrary<F, C>) -> (r: Vec<Retaliation<F, C>>)
        ensures
            r@ == held_retaliations(self.collected_item_ids@, *items),
    {
        let mut r: Vec<Retaliation<F, C>> = Vec::new();
        let mut i: usize = 0;
        while i < self.collected_item_ids.len()
            invariant
                i <= self.collected_item_ids@.len(),
                r@ == held_retaliations(self.collected_item_ids@.take(i as int), *items),
            decreases self.collected_item_ids@.len() - i,
        {
            let id = self.collected_item_ids[i];
            let ghost before = r@;
            proof {
                assert(self.collected_item_ids@.take(i + 1).drop_last() =~= self.collected_item_ids@.take(
                    i as int,
                ));
            }
            match items.get_item_definition(id) {
                Some(def) => {
                    let mut j: usize = 0;
                    while j < def.effects.len()
                        invariant
                            j <= def.effects@.len(),
                            r@ == before + retaliations_in(def.effects@.take(j as int)),
                        decreases def.effects@.len() - j,
                    {
                        proof {
                            assert(def.effects@.take(j + 1).drop_last() =~= def.effects@.take(j as int));
                        }
                        match &def.effects[j] {
                            ItemEffect::OnSurvivorHitRetaliate {
                                chance,
                                retaliation_damage,
                                retaliation_radius,
                                retaliation_color,
                            } => {
                                r.push(
                                    Retaliation {
                                        chance: *chance,
                                        damage: *retaliation_damage,
                                        radius: *retaliation_radius,
                                        color: *retaliation_color,
                                    },
                                );
                            },
                            _ => {},
                        }
                        proof {
                            assert(r@ =~= before + retaliations_in(def.effects@.take(j + 1)));
                        }
                        j = j + 1;
                    }
                    proof {
                        assert(def.effects@.take(j as int) =~= def.effects@);
                    }
                },
                None => {},
            }
            i = i + 1;
        }
        proof {
            assert(self.collected_item_ids@.take(i as int) =~= self.collected_item_ids@);
        }
        r
    }
}

} // verus!

verus! {

fn in_i32(v: i64) -> (r: bool)
    ensures
        r == (i32::MIN <= v <= i32::MAX),
{
    i32::MIN as i64 <= v && v <= i32::MAX as i64
}

fn in_u32(v: i64) -> (r: bool)
    ensures
        r == (0 <= v <= u32::MAX),
{
    0 <= v && v <= u32::MAX as i64
}

/// The integers of a relic state, as machine values.
pub open spec fn mirrors(
    g: RelicState,
    max_health: i64,
    damage: i64,
    health: Option<i64>,
    circle: Option<(bool, i64)>,
    swarm: Option<(bool, i64, i64)>,
) -> bool {
    &&& g.max_health == max_health
    &&& g.damage_bonus == damage
    &&& g.health == match health {
        Some(h) => Some(h as int),
        None => None::<int>,
    }
    &&& g.circle == match circle {
        Some((a, d)) => Some((a, d as int)),
        None => None::<(bool, int)>,
    }
    &&& g.swarm == match swarm {
        Some((a, n, d)) => Some((a, n as int, d as int)),
        None => None::<(bool, int, int)>,
    }
}

/// Whether picking up the relic resolves without an integer overflowing:
/// exactly when `collect_item` may be called.
#[verifier::rlimit(40)]
pub fn relic_applies<F, C, FS, VS, CS>(
    survivor: &Survivor,
    item_id: ItemId,
    items: &ItemLibrary<F, C>,
    skills: &SkillLibrary<FS, VS, CS>,
    health: Option<i32>,
    circle: Option<CircleOfWarding>,
    swarm: Option<SwarmOfNightmares>,
) -> (r: bool)
    ensures
        r == (items.ids().contains(item_id) && !survivor.collected_item_ids@.contains(item_id) ==> relic_fold_fits(
            relic_view(*survivor, health, circle, swarm, true),
            found_definition(*items, item_id).effects@,
            skills.ids(),
        )),
{
    if survivor.has_collected(item_id) {
        return true;
    }
    let def = match items.get_item_definition(item_id) {
        Some(d) => d,
        None => {
            return true;
        },
    };
    let ghost start = relic_view(*survivor, health, circle, swarm, true);
    let ghost effects = def.effects@;
    let ghost known = skills.ids();
    let mut max_health: i64 = survivor.max_health as i64;
    let mut damage: i64 = survivor.auto_weapon_damage_bonus as i64;
    let mut hp: Option<i64> = match health {
        Some(h) => Some(h as i64),
        None => None,
    };
    let mut circ: Option<(bool, i64)> = match circle {
        Some(c) => Some((c.is_active, c.base_damage_per_tick as i64)),
        None => None,
    };
    let mut sw: Option<(bool, i64, i64)> = match swarm {
        Some(w) => Some((w.is_active, w.num_larvae as i64, w.damage_per_hit as i64)),
        None => None,
    };
    proof {
        assert(effects.take(0) =~= Seq::<ItemEffect<F, C>>::empty());
    }
    let mut j: usize = 0;
    while j < def.effects.len()
        invariant
            j <= effects.len(),
            effects == def.effects@,
            known == skills.ids(),
            effects == found_definition(*items, item_id).effects@,
            start == relic_view(*survivor, health, circle, swarm, true),
            items.ids().contains(item_id),
            !survivor.collected_item_ids@.contains(item_id),
            relic_fold_fits(start, effects.take(j as int), known),
            mirrors(relic_fold(start, effects.take(j as int), known), max_health, damage, hp, circ, sw),
        decreases effects.len() - j,
    {
        proof {
            lemma_fold_step(start, effects, j as int, known);
            if j == 0 {
                assert(relic_state_fits(relic_fold(start, effects.take(j as int), known)));
            } else {
                assert(effects.take(j as int).drop_last() =~= effects.take(j - 1));
            }
        }
        let ghost g = relic_fold(start, effects.take(j as int), known);
        let mut ok = true;
        match &def.effects[j] {
            ItemEffect::PassiveStatBoost { max_health_increase, damage_increase, .. } => {
                match max_health_increase {
                    Some(a) => {
                        let m = max_health + *a as i64;
                        hp = match hp {
                            Some(h) => {
                                let raised = h + *a as i64;
                                ok = ok && in_i32(raised);
                                Some(if raised < m { raised } else { m })
                            },
                            None => None,
                        };
                        max_health = m;
                    },
                    None => {},
                }
                match damage_increase {
                    Some(d) => {
                        damage = damage + *d as i64;
                    },
                    None => {},
                }
            },
            ItemEffect::ActivateCircleOfWarding { base_damage, .. } => {
                match circ {
                    Some((active, d)) => {
                        circ = Some((true, if !active { *base_damage as i64 } else { d + 1 }));
                    },
                    None => {},
                }
            },
            ItemEffect::ActivateSwarmOfNightmares { num_larvae, base_damage, .. } => {
                match sw {
                    Some((active, n, d)) => {
                        if active {
                            ok = in_u32(n + 1);
                        }
                        sw = Some(
                            if !active {
                                (true, *num_larvae as i64, *base_damage as i64)
                            } else {
                                (true, if n + 1 < MAX_RELIC_LARVAE as i64 { n + 1 } else { MAX_RELIC_LARVAE as i64 }, d + 1)
                            },
                        );
                    },
                    None => {},
                }
            },
            _ => {},
        }
        ok = ok && in_i32(max_health) && in_i32(damage);
        match hp {
            Some(h) => {
                ok = ok && in_i32(h);
            },
            None => {},
        }
        match circ {
            Some((_, d)) => {
                ok = ok && in_i32(d);
            },
            None => {},
        }
        match sw {
            Some((_, n, d)) => {
                ok = ok && in_u32(n) && in_i32(d);
            },
            None => {},
        }
        assert(mirrors(relic_step(g, effects[j as int], known), max_health, damage, hp, circ, sw));
        assert(ok == relic_step_fits(g, effects[j as int], known));
        if !ok {
            proof {
                if relic_fold_fits(start, effects, known) {
                    lemma_fold_fits_prefix(start, effects, j + 1, known);
                    assert(false);
                }
            }
            return false;
        }
        j = j + 1;
    }
    proof {
        assert(effects.take(j as int) =~= effects);
    }
    true
}

} // verus!
