use vstd::prelude::*;
use crate::items::{AutomaticWeaponId, ItemId};
use crate::skills::ActiveSkillInstance;

verus! {

/// Echoes needed to leave each of the first ten levels.
pub open spec fn xp_table(index: int) -> int {
    if index == 0 { 100 }
    else if index == 1 { 150 }
    else if index == 2 { 250 }
    else if index == 3 { 400 }
    else if index == 4 { 600 }
    else if index == 5 { 850 }
    else if index == 6 { 1100 }
    else if index == 7 { 1400 }
    else if index == 8 { 1800 }
    else { 2500 }
}

/// Echoes needed to advance from `level` to the next level: level 0 never
/// advances, levels 1 to 10 follow the table, and every later level costs 500
/// more than the one before it, starting from 2500.
pub open spec fn xp_required(level: nat) -> int {
    if level == 0 { 0 }
    else if level <= 10 { xp_table(level - 1) }
    else { 2500 + (level - 10) * 500 }
}

/// Total echoes spent to climb from level 1 up to `level`.
pub open spec fn xp_spent_before(level: nat) -> int
    decreases level,
{
    if level <= 1 { 0 } else { xp_spent_before((level - 1) as nat) + xp_required((level - 1) as nat) }
}

/// The echo costs of the levels grow: each level costs more than the one
/// before it, a fresh survivor needs 100 echoes for its first level, every
/// level from the tenth on costs 500 more than the previous one, and reaching
/// level 11 from level 1 takes 9150 echoes in all.
pub proof fn xp_costs_grow(level: nat)
    ensures
        level >= 1 ==> xp_required(level) < xp_required(level + 1),
        level >= 10 ==> xp_required(level + 1) == xp_required(level) + 500,
        xp_required(1) == 100,
        xp_spent_before(11) == 9150,
{
    reveal_with_fuel(xp_spent_before, 12);
}

} // verus!

verus! {

/// Largest number of Mind Strain stacks a survivor can carry.
pub const MAX_MIND_STRAIN_STACKS: u32 = 4;

/// Maximum health of a freshly spawned survivor.
pub const INITIAL_SURVIVOR_MAX_HEALTH: i32 = 100;

/// The integer state of the survivor: progression, flat combat bonuses,
/// equipped skills and collected relics. Multipliers and other real-valued
/// tuning are kept by the engine beside this record.
pub struct Survivor {
    pub experience: u32,
    pub current_level_xp: u32,
    pub level: u32,
    pub auto_weapon_damage_bonus: i32,
    pub auto_weapon_piercing_bonus: u32,
    pub auto_weapon_additional_projectiles_bonus: u32,
    pub max_health: i32,
    pub equipped_skills: Vec<ActiveSkillInstance>,
    pub collected_item_ids: Vec<ItemId>,
    pub inherent_weapon_id: AutomaticWeaponId,
    pub auto_attack_bonus_fire_damage: u32,
    pub auto_attack_bonus_cold_damage: u32,
    pub auto_attack_bonus_lightning_damage: u32,
    pub auto_attack_poison_dps: u32,
    pub auto_attack_aoe_on_hit_damage: u32,
    pub armor: u32,
    pub on_hit_temp_armor_bonus: u32,
    pub after_being_hit_retaliation_nova_damage: i32,
    pub max_dash_charges: u32,
    pub shield_on_kill_amount: u32,
    pub orbiter_explosion_damage: u32,
}

impl Survivor {
    /// The progression ledger balances: all echoes ever gained equal the echoes
    /// spent on past levels plus those gathered toward the next one.
    pub open spec fn ledger_balanced(&self) -> bool {
        self.experience == xp_spent_before(self.level as nat) + self.current_level_xp
    }

    /// Every field but the equipped skills and the collected relics agrees
    /// with `other`.
    pub open spec fn same_stats(&self, other: Survivor) -> bool {
        &&& self.experience == other.experience
        &&& self.current_level_xp == other.current_level_xp
        &&& self.level == other.level
        &&& self.auto_weapon_damage_bonus == other.auto_weapon_damage_bonus
        &&& self.auto_weapon_piercing_bonus == other.auto_weapon_piercing_bonus
        &&& self.auto_weapon_additional_projectiles_bonus == other.auto_weapon_additional_projectiles_bonus
        &&& self.max_health == other.max_health
        &&& self.inherent_weapon_id == other.inherent_weapon_id
        &&& self.auto_attack_bonus_fire_damage == other.auto_attack_bonus_fire_damage
        &&& self.auto_attack_bonus_cold_damage == other.auto_attack_bonus_cold_damage
        &&& self.auto_attack_bonus_lightning_damage == other.auto_attack_bonus_lightning_damage
        &&& self.auto_attack_poison_dps == other.auto_attack_poison_dps
        &&& self.auto_attack_aoe_on_hit_damage == other.auto_attack_aoe_on_hit_damage
        &&& self.armor == other.armor
        &&& self.on_hit_temp_armor_bonus == other.on_hit_temp_armor_bonus
        &&& self.after_being_hit_retaliation_nova_damage == other.after_being_hit_retaliation_nova_damage
        &&& self.max_dash_charges == other.max_dash_charges
        &&& self.shield_on_kill_amount == other.shield_on_kill_amount
        &&& self.orbiter_explosion_damage == other.orbiter_explosion_damage
    }

    /// Every field but the progression (echoes and level) agrees with
    /// `other`.
    pub open spec fn same_build(&self, other: Survivor) -> bool {
        &&& self.auto_weapon_damage_bonus == other.auto_weapon_damage_bonus
        &&& self.auto_weapon_piercing_bonus == other.auto_weapon_piercing_bonus
        &&& self.auto_weapon_additional_projectiles_bonus == other.auto_weapon_additional_projectiles_bonus
        &&& self.max_health == other.max_health
        &&& self.equipped_skills@ == other.equipped_skills@
        &&& self.collected_item_ids@ == other.collected_item_ids@
        &&& self.inherent_weapon_id == other.inherent_weapon_id
        &&& self.auto_attack_bonus_fire_damage == other.auto_attack_bonus_fire_damage
        &&& self.auto_attack_bonus_cold_damage == other.auto_attack_bonus_cold_damage
        &&& self.auto_attack_bonus_lightning_damage == other.auto_attack_bonus_lightning_damage
        &&& self.auto_attack_poison_dps == other.auto_attack_poison_dps
        &&& self.auto_attack_aoe_on_hit_damage == other.auto_attack_aoe_on_hit_damage
        &&& self.armor == other.armor
        &&& self.on_hit_temp_armor_bonus == other.on_hit_temp_armor_bonus
        &&& self.after_being_hit_retaliation_nova_damage == other.after_being_hit_retaliation_nova_damage
        &&& self.max_dash_charges == other.max_dash_charges
        &&& self.shield_on_kill_amount == other.shield_on_kill_amount
        &&& self.orbiter_explosion_damage == other.orbiter_explosion_damage
    }

    /// Whether the echo cost of the current level fits in a `u32`.
    pub open spec fn requirement_fits(&self) -> bool {
        xp_required(self.level as nat) <= u32::MAX
    }

    /// A new survivor at level 1 with the given skills, relics and weapon.
    pub fn new_with_skills_items_and_weapon(
        initial_skills: Vec<ActiveSkillInstance>,
        initial_items: Vec<ItemId>,
        inherent_weapon_id: AutomaticWeaponId,
    ) -> (s: Self)
        ensures
            s.experience == 0,
            s.current_level_xp == 0,
            s.level == 1,
            s.auto_weapon_damage_bonus == 0,
            s.auto_weapon_piercing_bonus == 0,
            s.auto_weapon_additional_projectiles_bonus == 0,
            s.max_health == INITIAL_SURVIVOR_MAX_HEALTH,
            s.equipped_skills@ == initial_skills@,
            s.collected_item_ids@ == initial_items@,
            s.inherent_weapon_id == inherent_weapon_id,
            s.auto_attack_bonus_fire_damage == 0,
            s.auto_attack_bonus_cold_damage == 0,
            s.auto_attack_bonus_lightning_damage == 0,
            s.auto_attack_poison_dps == 0,
            s.auto_attack_aoe_on_hit_damage == 0,
            s.armor == 0,
            s.on_hit_temp_armor_bonus == 0,
            s.after_being_hit_retaliation_nova_damage == 0,
            s.max_dash_charges == 1,
            s.shield_on_kill_amount == 0,
            s.orbiter_explosion_damage == 0,
            s.ledger_balanced(),
    {
        Survivor {
            experience: 0,
            current_level_xp: 0,
            level: 1,
            auto_weapon_damage_bonus: 0,
            auto_weapon_piercing_bonus: 0,
            auto_weapon_additional_projectiles_bonus: 0,
            max_health: INITIAL_SURVIVOR_MAX_HEALTH,
            equipped_skills: initial_skills,
            collected_item_ids: initial_items,
            inherent_weapon_id,
            auto_attack_bonus_fire_damage: 0,
            auto_attack_bonus_cold_damage: 0,
            auto_attack_bonus_lightning_damage: 0,
            auto_attack_poison_dps: 0,
            auto_attack_aoe_on_hit_damage: 0,
            armor: 0,
            on_hit_temp_armor_bonus: 0,
            after_being_hit_retaliation_nova_damage: 0,
            max_dash_charges: 1,
            shield_on_kill_amount: 0,
            orbiter_explosion_damage: 0,
        }
    }

    /// Echoes needed to leave the current level.
    pub fn experience_to_next_level(&self) -> (r: u32)
        requires
            self.requirement_fits(),
        ensures
            r == xp_required(self.level as nat),
    {
        if self.level == 0 {
            return 0;
        }
        match self.level {
            1 => 100,
            2 => 150,
            3 => 250,
            4 => 400,
            5 => 600,
            6 => 850,
            7 => 1100,
            8 => 1400,
            9 => 1800,
            10 => 2500,
            _ => 2500 + (self.level - 10) * 500,
        }
    }

    /// Adds echoes that were already scaled by the survivor's gain multiplier.
    /// At most one level is gained per call; the result says whether it was.
    pub fn add_experience(&mut self, gained: u32) -> (leveled_up: bool)
        requires
            old(self).current_level_xp + gained <= u32::MAX,
            old(self).experience + gained <= u32::MAX,
            old(self).level < u32::MAX,
            old(self).requirement_fits(),
        ensures
            final(self).experience == old(self).experience + gained,
            leveled_up == (old(self).level > 0 && old(self).current_level_xp + gained
                >= xp_required(old(self).level as nat)),
            leveled_up ==> final(self).level == old(self).level + 1
                && final(self).current_level_xp == old(self).current_level_xp + gained
                    - xp_required(old(self).level as nat),
            !leveled_up ==> final(self).level == old(self).level
                && final(self).current_level_xp == old(self).current_level_xp + gained,
            old(self).ledger_balanced() ==> final(self).ledger_balanced(),
            final(self).same_build(*old(self)),
    {
        self.current_level_xp = self.current_level_xp + gained;
        self.experience = self.experience + gained;
        let needed = self.experience_to_next_level();
        if self.current_level_xp >= needed && self.level > 0 {
            self.current_level_xp = self.current_level_xp - needed;
            self.level = self.level + 1;
            return true;
        }
        false
    }
}

} // verus!

verus! {

/// Stacking slow that Mind Leeches inflict on contact.
#[derive(Debug, Clone, Copy, PartialEq, Eq, Structural)]
pub struct MindStrainDebuff {
    pub stacks: u32,
}

/// Stacks after one more Mind Leech contact.
pub open spec fn strained_stacks(existing: Option<MindStrainDebuff>) -> u32 {
    match existing {
        Some(d) => if d.stacks + 1 < MAX_MIND_STRAIN_STACKS { (d.stacks + 1) as u32 } else { MAX_MIND_STRAIN_STACKS },
        None => 1,
    }
}

/// Mind Strain builds up one stack per contact, starting from one and never
/// beyond the maximum of four.
pub proof fn mind_strain_builds_up(existing: Option<MindStrainDebuff>)
    ensures
        1 <= strained_stacks(existing) <= MAX_MIND_STRAIN_STACKS,
        MAX_MIND_STRAIN_STACKS == 4,
        existing is None ==> strained_stacks(existing) == 1,
        existing is Some && existing.unwrap().stacks < 3 ==> strained_stacks(existing) == existing.unwrap().stacks + 1,
        existing is Some && existing.unwrap().stacks >= 3 ==> strained_stacks(existing) == 4,
{
}

/// Registers a Mind Leech contact: an existing debuff gains a stack up to the
/// maximum, otherwise a new debuff with one stack is applied. Either way the
/// debuff's timer restarts (the caller resets it).
pub fn apply_mind_strain(debuff: &mut Option<MindStrainDebuff>)
    requires
        *old(debuff) matches Some(d) ==> d.stacks < u32::MAX,
    ensures
        *final(debuff) == Some(MindStrainDebuff { stacks: strained_stacks(*old(debuff)) }),
        (*old(debuff) matches Some(d) ==> d.stacks <= MAX_MIND_STRAIN_STACKS) ==> 1 <= final(debuff).unwrap().stacks
            <= MAX_MIND_STRAIN_STACKS,
{
    match debuff {
        Some(d) => {
            let raised = d.stacks + 1;
            d.stacks = if raised < MAX_MIND_STRAIN_STACKS { raised } else { MAX_MIND_STRAIN_STACKS };
        },
        None => {
            *debuff = Some(MindStrainDebuff { stacks: 1 });
        },
    }
}

/// Resolves a horror touching the survivor once the invincibility window is
/// over. A Mind Leech strains the mind and is consumed (the result is `true`);
/// any other horror deals its collision damage through the shield.
pub fn resolve_horror_contact(
    health: &mut i32,
    shield: &mut Option<crate::combat::ActiveShield>,
    mind_strain: &mut Option<MindStrainDebuff>,
    is_mind_leech: bool,
    damage_on_collision: i32,
) -> (horror_consumed: bool)
    requires
        is_mind_leech ==> (*old(mind_strain) matches Some(d) ==> d.stacks < u32::MAX),
        !is_mind_leech ==> crate::combat::hit_fits(*old(health), *old(shield), damage_on_collision),
    ensures
        horror_consumed == is_mind_leech,
        is_mind_leech ==> *final(health) == *old(health) && *final(shield) == *old(shield)
            && *final(mind_strain) == Some(MindStrainDebuff { stacks: strained_stacks(*old(mind_strain)) }),
        !is_mind_leech ==> *final(mind_strain) == *old(mind_strain) && {
            let rest = crate::combat::damage_after_shield(*old(shield), damage_on_collision as int);
            *final(health) == if rest > 0 { *old(health) - rest } else { *old(health) as int }
        },
{
    if is_mind_leech {
        apply_mind_strain(mind_strain);
        true
    } else {
        crate::combat::take_hit(health, shield, damage_on_collision);
        false
    }
}

} // verus!

verus! {

/// Most skills a survivor can have equipped.
pub const MAX_EQUIPPED_SKILLS: usize = 5;

/// Whether one of the equipped skills is the given one.
pub open spec fn has_skill(equipped: Seq<ActiveSkillInstance>, id: crate::skills::SkillId) -> bool {
    exists|i: int| 0 <= i < equipped.len() && #[trigger] equipped[i].definition_id == id
}

/// The equipped skills fit the slots and no skill is equipped twice.
pub open spec fn skills_well_formed(equipped: Seq<ActiveSkillInstance>) -> bool {
    &&& equipped.len() <= MAX_EQUIPPED_SKILLS
    &&& forall|i: int, j: int| 0 <= i < j < equipped.len() ==> #[trigger] equipped[i].definition_id
        != #[trigger] equipped[j].definition_id
}

/// Whether a skill would be learned: it exists, is not equipped yet, and a
/// slot is free.
pub open spec fn can_learn(equipped: Seq<ActiveSkillInstance>, known: Seq<crate::skills::SkillId>,
    id: crate::skills::SkillId) -> bool
{
    known.contains(id) && !has_skill(equipped, id) && equipped.len() < MAX_EQUIPPED_SKILLS
}

impl Survivor {
    /// Whether the given skill is equipped.
    pub fn knows_skill(&self, id: crate::skills::SkillId) -> (r: bool)
        ensures
            r == has_skill(self.equipped_skills@, id),
    {
        let mut i: usize = 0;
        while i < self.equipped_skills.len()
            invariant
                i <= self.equipped_skills@.len(),
                forall|j: int| 0 <= j < i ==> self.equipped_skills@[j].definition_id != id,
            decreases self.equipped_skills@.len() - i,
        {
            if self.equipped_skills[i].definition_id == id {
                return true;
            }
            i = i + 1;
        }
        false
    }

    /// Learns a skill the library defines, in the next free slot, unless it is
    /// already equipped or all slots are taken. The result says whether it was
    /// learned.
    pub fn grant_skill<F, V, C>(&mut self, id: crate::skills::SkillId, library: &crate::skills::SkillLibrary<F, V, C>)
        -> (granted: bool)
        ensures
            granted == can_learn(old(self).equipped_skills@, library.ids(), id),
            granted ==> final(self).equipped_skills@ == old(self).equipped_skills@.push(
                ActiveSkillInstance { definition_id: id, current_cooldown: 0, current_level: 1, flat_damage_bonus: 0 }),
            !granted ==> final(self).equipped_skills@ == old(self).equipped_skills@,
            skills_well_formed(old(self).equipped_skills@) ==> skills_well_formed(final(self).equipped_skills@),
            final(self).collected_item_ids@ == old(self).collected_item_ids@,
            final(self).same_stats(*old(self)),
    {
        if self.knows_skill(id) {
            return false;
        }
        if self.equipped_skills.len() >= MAX_EQUIPPED_SKILLS {
            return false;
        }
        match library.get_skill_definition(id) {
            Some(def) => {
                self.equipped_skills.push(ActiveSkillInstance::new(def.id));
                true
            },
            None => false,
        }
    }

    /// Raises the flat damage of the skill in `slot` and counts a level, when
    /// that slot holds a skill. The result says whether it did.
    pub fn empower_skill(&mut self, slot: usize, amount: i32) -> (done: bool)
        requires
            slot < old(self).equipped_skills@.len() ==> {
                let s = old(self).equipped_skills@[slot as int];
                &&& i32::MIN <= s.flat_damage_bonus + amount <= i32::MAX
                &&& s.current_level < u32::MAX
            },
        ensures
            done == (slot < old(self).equipped_skills@.len()),
            done ==> final(self).equipped_skills@ == old(self).equipped_skills@.update(slot as int,
                ActiveSkillInstance {
                    flat_damage_bonus: (old(self).equipped_skills@[slot as int].flat_damage_bonus + amount) as i32,
                    current_level: (old(self).equipped_skills@[slot as int].current_level + 1) as u32,
                    ..old(self).equipped_skills@[slot as int]
                }),
            !done ==> final(self).equipped_skills@ == old(self).equipped_skills@,
            final(self).collected_item_ids@ == old(self).collected_item_ids@,
            final(self).same_stats(*old(self)),
    {
        if slot < self.equipped_skills.len() {
            let mut s = ActiveSkillInstance {
                definition_id: self.equipped_skills[slot].definition_id,
                current_cooldown: self.equipped_skills[slot].current_cooldown,
                current_level: self.equipped_skills[slot].current_level,
                flat_damage_bonus: self.equipped_skills[slot].flat_damage_bonus,
            };
            s.flat_damage_bonus = s.flat_damage_bonus + amount;
            s.current_level = s.current_level + 1;
            self.equipped_skills.set(slot, s);
            true
        } else {
            false
        }
    }

    /// Counts a level on the skill in `slot` (its cooldown or area multiplier
    /// is raised by the engine), when that slot holds a skill. The result says
    /// whether it did.
    pub fn level_skill(&mut self, slot: usize) -> (done: bool)
        requires
            slot < old(self).equipped_skills@.len() ==> old(self).equipped_skills@[slot as int].current_level
                < u32::MAX,
        ensures
            done == (slot < old(self).equipped_skills@.len()),
            done ==> final(self).equipped_skills@ == old(self).equipped_skills@.update(slot as int,
                ActiveSkillInstance {
                    current_level: (old(self).equipped_skills@[slot as int].current_level + 1) as u32,
                    ..old(self).equipped_skills@[slot as int]
                }),
            !done ==> final(self).equipped_skills@ == old(self).equipped_skills@,
            final(self).collected_item_ids@ == old(self).collected_item_ids@,
            final(self).same_stats(*old(self)),
    {
        if slot < self.equipped_skills.len() {
            let mut s = ActiveSkillInstance {
                definition_id: self.equipped_skills[slot].definition_id,
                current_cooldown: self.equipped_skills[slot].current_cooldown,
                current_level: self.equipped_skills[slot].current_level,
                flat_damage_bonus: self.equipped_skills[slot].flat_damage_bonus,
            };
            s.current_level = s.current_level + 1;
            self.equipped_skills.set(slot, s);
            true
        } else {
            false
        }
    }
}

} // verus!

verus! {

impl Survivor {
    /// Damage of the survivor's automatic attack whose base damage is `base`:
    /// the flat weapon bonus is added.
    pub fn weapon_damage(&self, base: i32) -> (r: i32)
        requires
            i32::MIN <= base + self.auto_weapon_damage_bonus <= i32::MAX,
        ensures
            r == base + self.auto_weapon_damage_bonus,
    {
        base + self.auto_weapon_damage_bonus
    }

    /// Piercing of the survivor's projectiles whose base piercing is `base`:
    /// the flat piercing bonus is added.
    pub fn weapon_piercing(&self, base: u32) -> (r: u32)
        requires
            base + self.auto_weapon_piercing_bonus <= u32::MAX,
        ensures
            r == base + self.auto_weapon_piercing_bonus,
    {
        base + self.auto_weapon_piercing_bonus
    }

    /// Projectiles in one volley of a weapon that fires `additional` beyond
    /// the first: one, the weapon's extra ones and the survivor's bonus ones.
    pub fn volley_size(&self, additional: u32) -> (r: u32)
        requires
            1 + additional + self.auto_weapon_additional_projectiles_bonus <= u32::MAX,
        ensures
            r == 1 + additional + self.auto_weapon_additional_projectiles_bonus,
    {
        1 + additional + self.auto_weapon_additional_projectiles_bonus
    }
}

} // verus!
