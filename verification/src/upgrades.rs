use vstd::prelude::*;
use crate::items::{AutomaticWeaponId, ItemId};
use crate::skills::SkillId;

verus! {

/// Tunable parameters of a lobbed pool weapon.
#[derive(Debug, Clone, Copy, PartialEq, Eq, Hash, Structural)]
pub enum LobbedAoEPoolField {
    BaseDamageOnImpact,
    PoolDamagePerTick,
    BaseFireRateSecs,
    ProjectileSpeed,
    ProjectileArcHeight,
    PoolRadius,
    PoolDurationSecs,
    PoolTickIntervalSecs,
    MaxActivePools,
}

impl LobbedAoEPoolField {
    /// The pool radius.
    pub fn default() -> (f: Self)
        ensures
            f == LobbedAoEPoolField::PoolRadius,
    {
        LobbedAoEPoolField::PoolRadius
    }
}

/// Tunable parameters of a channeled beam weapon.
#[derive(Debug, Clone, Copy, PartialEq, Eq, Hash, Structural)]
pub enum ChanneledBeamField {
    BaseDamagePerTick,
    TickRateSecs,
    Range,
    BeamWidth,
    MovementPenaltyMultiplier,
    MaxDurationSecs,
    CooldownSecs,
}

impl ChanneledBeamField {
    /// The beam range.
    pub fn default() -> (f: Self)
        ensures
            f == ChanneledBeamField::Range,
    {
        ChanneledBeamField::Range
    }
}

/// Tunable parameters of a returning projectile weapon.
#[derive(Debug, Clone, Copy, PartialEq, Eq, Hash, Structural)]
pub enum ReturningProjectileField {
    BaseDamage,
    BaseFireRateSecs,
    ProjectileSpeed,
    TravelDistance,
    Piercing,
}

impl ReturningProjectileField {
    /// The travel distance.
    pub fn default() -> (f: Self)
        ensures
            f == ReturningProjectileField::TravelDistance,
    {
        ReturningProjectileField::TravelDistance
    }
}

/// Tunable parameters of a standard projectile weapon.
#[derive(Debug, Clone, Copy, PartialEq, Eq, Hash, Structural)]
pub enum StandardProjectileField {
    BaseDamage,
    BaseFireRateSecs,
    BaseProjectileSpeed,
    BasePiercing,
    AdditionalProjectiles,
    ProjectileLifetimeSecs,
}

impl StandardProjectileField {
    /// The base damage.
    pub fn default() -> (f: Self)
        ensures
            f == StandardProjectileField::BaseDamage,
    {
        StandardProjectileField::BaseDamage
    }
}

/// Tunable parameters of a cone weapon.
#[derive(Debug, Clone, Copy, PartialEq, Eq, Hash, Structural)]
pub enum ConeAttackField {
    BaseDamage,
    BaseFireRateSecs,
    ConeAngleDegrees,
    ConeRadius,
}

impl ConeAttackField {
    /// The cone radius.
    pub fn default() -> (f: Self)
        ensures
            f == ConeAttackField::ConeRadius,
    {
        ConeAttackField::ConeRadius
    }
}

/// Tunable parameters of an orbiting pet weapon.
#[derive(Debug, Clone, Copy, PartialEq, Eq, Hash, Structural)]
pub enum OrbitingPetField {
    MaxActiveOrbs,
    OrbDurationSecs,
    OrbitRadius,
    OrbitSpeedRadPerSec,
    CanBeDeployedAtLocation,
    DeploymentRange,
    PulseDamage,
    PulseRadius,
    PulseIntervalSecs,
    BoltDamage,
    BoltSpeed,
    BoltFireIntervalSecs,
    BoltLifetimeSecs,
    BoltHomingStrength,
}

impl OrbitingPetField {
    /// The number of orbs.
    pub fn default() -> (f: Self)
        ensures
            f == OrbitingPetField::MaxActiveOrbs,
    {
        OrbitingPetField::MaxActiveOrbs
    }
}

/// How rare (and how strong) an upgrade card is.
#[derive(Debug, Clone, Copy, PartialEq, Eq, Hash, Structural)]
pub enum UpgradeRarity {
    Regular,
    Rare,
    Legendary,
}

impl UpgradeRarity {
    /// Regular rarity.
    pub fn default() -> (r: Self)
        ensures
            r == UpgradeRarity::Regular,
    {
        UpgradeRarity::Regular
    }
}

/// Identifier of an upgrade card.
#[derive(Debug, Clone, Copy, PartialEq, Eq, Hash, Structural)]
pub struct UpgradeId(pub u32);

/// What an upgrade card grants. `F` is the type of real-valued amounts; the
/// rules here apply the integer amounts and leave the real-valued ones to the
/// engine.
#[derive(Debug, Clone, Copy, PartialEq)]
pub enum UpgradeType<F> {
    SurvivorSpeed(u32),
    MaxEndurance(i32),
    EnduranceRegeneration(F),
    EchoesGainMultiplier(u32),
    SoulAttractionRadius(u32),
    IncreaseAutoWeaponDamage(i32),
    IncreaseAutoWeaponFireRate(u32),
    IncreaseAutoWeaponProjectileSpeed(u32),
    IncreaseAutoWeaponPiercing(u32),
    IncreaseAutoWeaponProjectiles(u32),
    AutoAttackDamagePercent(F),
    AutoAttackSpeedPercent(F),
    AutoAttackFireRatePercent(F),
    AutoAttackAddProjectiles(u32),
    AutoAttackAddPiercing(u32),
    InscribeCircleOfWarding,
    IncreaseCircleRadius(u32),
    IncreaseCircleDamage(i32),
    DecreaseCircleTickRate(u32),
    ManifestSwarmOfNightmares,
    IncreaseNightmareCount(u32),
    IncreaseNightmareDamage(i32),
    IncreaseNightmareRadius(F),
    IncreaseNightmareRotationSpeed(F),
    IncreaseSkillDamage { slot_index: usize, amount: i32 },
    ReduceSkillCooldown { slot_index: usize, percent_reduction: F },
    IncreaseSkillAoERadius { slot_index: usize, percent_increase: F },
    GrantRandomRelic,
    GrantSkill(SkillId),
    AutoAttackAddFireDamage(u32),
    AutoAttackAddColdDamage(u32),
    AutoAttackAddLightningDamage(u32),
    AutoAttackAddPoisonDamage(u32),
    AutoAttackCritChance(F),
    AutoAttackCritDamage(F),
    AutoAttackExecuteLowHealth(F),
    AutoAttackLifeSteal(F),
    AutoAttackChainChance(F),
    AutoAttackForkChance(F),
    AutoAttackChillChance(F),
    AutoAttackStunChance(F),
    AutoAttackBurnChance(F),
    AutoAttackReduceHealingChance(F),
    AutoAttackAreaDamageOnHitChance(F),
    AutoAttackIncreaseDuration(F),
    AutoAttackHomingStrength(F),
    AutoAttackRicochetChance(F),
    AutoAttackShieldPenetration(F),
    AutoAttackCullStrikeChance(F),
    IncreaseArmor(u32),
    IncreaseEvasionChance(F),
    IncreaseBlockChance(F),
    IncreaseDamageReduction(F),
    IncreaseTenacity(F),
    IncreaseStatusEffectResistance(F),
    IncreaseHealingEffectiveness(F),
    OnHitGainTemporaryArmor(u32),
    OnHitGainTemporarySpeed(F),
    AfterBeingHitSpawnRetaliationNova(i32),
    IncreaseDashCharges(u32),
    ReduceDashCooldown(F),
    IncreaseDashRange(F),
    DashGrantsInvulnerability(F),
    IncreaseMovementOutOfCombat(F),
    ReduceSlowEffectiveness(F),
    GainShieldOnKill(u32),
    IncreaseEchoesDropRate(F),
    IncreaseRelicDropRate(F),
    ChanceForFreeSkillUse(F),
    AuraIncreaseSizePerKill(F),
    OrbiterIncreaseSpeedPerKill(F),
    AuraPullEnemiesChance(F),
    OrbiterExplodeOnKillChance(F),
    AuraDebuffEnemies(F),
    ModifyStandardProjectile { weapon_id: AutomaticWeaponId, field: StandardProjectileField, change_value: F, is_percentage: bool },
    ModifyReturningProjectile {
        weapon_id: AutomaticWeaponId,
        field: ReturningProjectileField,
        change_value: F,
        is_percentage: bool,
    },
    ModifyChanneledBeam { weapon_id: AutomaticWeaponId, field: ChanneledBeamField, change_value: F, is_percentage: bool },
    ModifyConeAttack { weapon_id: AutomaticWeaponId, field: ConeAttackField, change_value: F, is_percentage: bool },
    ModifyLobbedAoEPool { weapon_id: AutomaticWeaponId, field: LobbedAoEPoolField, change_value: F, is_percentage: bool },
    ModifyOrbitingPet { weapon_id: AutomaticWeaponId, field: OrbitingPetField, change_value: F, is_percentage: bool },
}

/// An upgrade offered on level-up.
pub struct UpgradeCard<F> {
    pub id: UpgradeId,
    pub name: String,
    pub description: String,
    pub upgrade_type: UpgradeType<F>,
    pub rarity: UpgradeRarity,
}

impl<F: Copy> Clone for UpgradeCard<F> {
    /// A copy of the card.
    fn clone(&self) -> (c: Self)
        ensures
            c == *self,
    {
        UpgradeCard {
            id: self.id,
            name: self.name.clone(),
            description: self.description.clone(),
            upgrade_type: self.upgrade_type,
            rarity: self.rarity,
        }
    }
}

} // verus!

verus! {

/// Every upgrade card that can be offered.
pub struct UpgradePool<F> {
    pub available_upgrades: Vec<UpgradeCard<F>>,
}

/// The cards shown on a level-up screen.
pub struct OfferedUpgrades<F> {
    pub choices: Vec<UpgradeCard<F>>,
}

/// `draw` holds `count` cards of `pool` (all of them when the pool is
/// smaller), each from a different position of the pool.
pub open spec fn is_draw_of<T>(draw: Seq<T>, pool: Seq<T>, count: int) -> bool {
    &&& draw.len() == if count < pool.len() { count } else { pool.len() as int }
    &&& exists|picks: Seq<int>| #[trigger] picks.len() == draw.len() && picks.no_duplicates() && forall|k: int|
        0 <= k < picks.len() ==> 0 <= #[trigger] picks[k] < pool.len() && draw[k] == pool[picks[k]]
}

/// A multiset-subset of a duplicate-free sequence is duplicate-free and
/// draws only on its elements.
proof fn lemma_sub_multiset_no_duplicates<T>(s: Seq<T>, t: Seq<T>)
    requires
        s.to_multiset().subset_of(t.to_multiset()),
        t.no_duplicates(),
    ensures
        s.no_duplicates(),
        forall|k: int| 0 <= k < s.len() ==> t.contains(#[trigger] s[k]),
{
    broadcast use vstd::seq_lib::group_to_multiset_ensures;
    t.lemma_multiset_has_no_duplicates();
    assert forall|x: T| s.to_multiset().contains(x) implies s.to_multiset().count(x) == 1 by {
        assert(t.to_multiset().count(x) >= s.to_multiset().count(x));
        assert(t.to_multiset().contains(x));
    }
    s.lemma_multiset_has_no_duplicates_conv();
    assert forall|k: int| 0 <= k < s.len() implies t.contains(#[trigger] s[k]) by {
        assert(s.contains(s[k]));
        assert(s.to_multiset().count(s[k]) > 0);
    }
}

impl<F> UpgradePool<F> {
    /// An empty pool.
    pub fn default() -> (p: Self)
        ensures
            p.available_upgrades@.len() == 0,
    {
        UpgradePool { available_upgrades: Vec::new() }
    }
}

impl<F: Copy> UpgradePool<F> {
    /// The cards of the pool at the given positions, in the order of the
    /// positions.
    pub fn cards_at(&self, positions: &Vec<usize>) -> (cards: Vec<UpgradeCard<F>>)
        requires
            forall|k: int| 0 <= k < positions@.len() ==> positions@[k] < self.available_upgrades@.len(),
        ensures
            cards@.len() == positions@.len(),
            forall|k: int|
                0 <= k < positions@.len() ==> cards@[k] == self.available_upgrades@[#[trigger] positions@[k] as int],
    {
        let n = self.available_upgrades.len();
        let mut cards: Vec<UpgradeCard<F>> = Vec::new();
        let mut j: usize = 0;
        while j < positions.len()
            invariant
                j <= positions@.len(),
                n == self.available_upgrades@.len(),
                forall|k: int| 0 <= k < positions@.len() ==> positions@[k] < n,
                cards@.len() == j,
                forall|k: int| 0 <= k < j ==> cards@[k] == self.available_upgrades@[positions@[k] as int],
            decreases positions@.len() - j,
        {
            let card = self.available_upgrades[positions[j]].clone();
            cards.push(card);
            j = j + 1;
        }
        cards
    }

    /// Draws up to `count` different cards of the pool at random.
    pub fn get_random_upgrades(&self, count: usize) -> (draw: Vec<UpgradeCard<F>>)
        ensures
            is_draw_of(draw@, self.available_upgrades@, count as int),
    {
        let n = self.available_upgrades.len();
        let mut positions: Vec<usize> = Vec::new();
        let mut i: usize = 0;
        while i < n
            invariant
                i <= n,
                n == self.available_upgrades@.len(),
                positions@.len() == i,
                forall|k: int| 0 <= k < i ==> positions@[k] == k,
            decreases n - i,
        {
            positions.push(i);
            i = i + 1;
        }
        assert(positions@.no_duplicates());
        let chosen = crate::random::choose_multiple_from(&positions, count);
        proof {
            lemma_sub_multiset_no_duplicates(chosen@, positions@);
            assert forall|k: int| 0 <= k < chosen@.len() implies chosen@[k] < n by {
                let j = choose|j: int| 0 <= j < positions@.len() && positions@[j] == chosen@[k];
            }
        }
        let draw = self.cards_at(&chosen);
        let ghost picks = chosen@.map_values(|x: usize| x as int);
        assert(picks.no_duplicates()) by {
            assert forall|a: int, b: int| 0 <= a < picks.len() && 0 <= b < picks.len() && a != b implies picks[a]
                != picks[b] by {
                assert(chosen@[a] != chosen@[b]);
            }
        }
        assert(picks.len() == draw@.len() && picks.no_duplicates() && forall|k: int| 0 <= k < picks.len() ==> 0
            <= #[trigger] picks[k] < self.available_upgrades@.len() && draw@[k] == self.available_upgrades@[picks[k]]);
        draw
    }
}

/// How many times its base amount a card of this rarity grants.
pub open spec fn rarity_factor(r: UpgradeRarity) -> int {
    match r {
        UpgradeRarity::Regular => 1,
        UpgradeRarity::Rare => 2,
        UpgradeRarity::Legendary => 3,
    }
}

/// A count-like amount scaled by rarity: once, twice or three times the base.
pub fn scale_by_rarity(base: u32, rarity: UpgradeRarity) -> (r: u32)
    requires
        base * rarity_factor(rarity) <= u32::MAX,
    ensures
        r == base * rarity_factor(rarity),
{
    match rarity {
        UpgradeRarity::Regular => base,
        UpgradeRarity::Rare => base * 2,
        UpgradeRarity::Legendary => base * 3,
    }
}

/// A signed amount scaled by rarity: once, twice or three times the base.
pub fn scale_signed_by_rarity(base: i32, rarity: UpgradeRarity) -> (r: i32)
    requires
        i32::MIN <= base * rarity_factor(rarity) <= i32::MAX,
    ensures
        r == base * rarity_factor(rarity),
{
    match rarity {
        UpgradeRarity::Regular => base,
        UpgradeRarity::Rare => base * 2,
        UpgradeRarity::Legendary => base * 3,
    }
}

/// Scaling by rarity is linear: a Rare card grants twice and a Legendary card
/// three times what the Regular card with the same base grants.
pub proof fn rarity_scaling_is_linear(base: u32)
    requires
        base * 3 <= u32::MAX,
    ensures
        base * rarity_factor(UpgradeRarity::Rare) == 2 * (base * rarity_factor(UpgradeRarity::Regular)),
        base * rarity_factor(UpgradeRarity::Legendary) == 3 * (base * rarity_factor(UpgradeRarity::Regular)),
        base * rarity_factor(UpgradeRarity::Regular) <= base * rarity_factor(UpgradeRarity::Rare)
            <= base * rarity_factor(UpgradeRarity::Legendary),
{
}

} // verus!

verus! {

use crate::skills::ActiveSkillInstance;
use crate::survivor::{can_learn, Survivor, skills_well_formed};
use crate::weapons::{CircleOfWarding, SwarmOfNightmares};
use crate::items::ItemLibrary;
use crate::skills::SkillLibrary;

/// The part of the game state that upgrade cards change, with integer fields
/// as mathematical integers.
pub struct UpgradeState {
    pub max_health: int,
    pub health: int,
    pub damage_bonus: int,
    pub piercing_bonus: int,
    pub projectiles_bonus: int,
    pub fire_damage: int,
    pub cold_damage: int,
    pub lightning_damage: int,
    pub poison_dps: int,
    pub armor: int,
    pub temp_armor: int,
    pub retaliation_nova: int,
    pub dash_charges: int,
    pub shield_on_kill: int,
    pub equipped: Seq<ActiveSkillInstance>,
    pub circle: (bool, int),
    pub swarm: (bool, int, int),
}

/// The upgrade-relevant state of the game, read from its parts.
pub open spec fn upgrade_view(survivor: Survivor, health: i32, circle: CircleOfWarding, swarm: SwarmOfNightmares)
    -> UpgradeState
{
    UpgradeState {
        max_health: survivor.max_health as int,
        health: health as int,
        damage_bonus: survivor.auto_weapon_damage_bonus as int,
        piercing_bonus: survivor.auto_weapon_piercing_bonus as int,
        projectiles_bonus: survivor.auto_weapon_additional_projectiles_bonus as int,
        fire_damage: survivor.auto_attack_bonus_fire_damage as int,
        cold_damage: survivor.auto_attack_bonus_cold_damage as int,
        lightning_damage: survivor.auto_attack_bonus_lightning_damage as int,
        poison_dps: survivor.auto_attack_poison_dps as int,
        armor: survivor.armor as int,
        temp_armor: survivor.on_hit_temp_armor_bonus as int,
        retaliation_nova: survivor.after_being_hit_retaliation_nova_damage as int,
        dash_charges: survivor.max_dash_charges as int,
        shield_on_kill: survivor.shield_on_kill_amount as int,
        equipped: survivor.equipped_skills@,
        circle: (circle.is_active, circle.base_damage_per_tick as int),
        swarm: (swarm.is_active, swarm.num_larvae as int, swarm.damage_per_hit as int),
    }
}

/// The larger of two integers.
pub open spec fn max_int(a: int, b: int) -> int {
    if a >= b { a } else { b }
}

/// The integer effect of an upgrade card of the given rarity. Flat bonuses
/// add up, "best of" bonuses keep the larger value, rarity multiplies the
/// base amount of rarity-scaled cards, aura cards act on an active aura (or
/// activate it), skill cards act on an occupied slot or a learnable skill.
/// Cards whose amounts are real-valued leave this state unchanged.
pub open spec fn upgrade_step<F>(s: UpgradeState, t: UpgradeType<F>, rarity: UpgradeRarity, known: Seq<SkillId>)
    -> UpgradeState
{
    let f = rarity_factor(rarity);
    match t {
        UpgradeType::MaxEndurance(a) => {
            let m = s.max_health + a;
            UpgradeState { max_health: m, health: if s.health + a < m { s.health + a } else { m }, ..s }
        },
        UpgradeType::IncreaseAutoWeaponDamage(b) => UpgradeState { damage_bonus: s.damage_bonus + b, ..s },
        UpgradeType::IncreaseAutoWeaponPiercing(a) => UpgradeState { piercing_bonus: s.piercing_bonus + a, ..s },
        UpgradeType::IncreaseAutoWeaponProjectiles(a) => UpgradeState {
            projectiles_bonus: s.projectiles_bonus + a,
            ..s
        },
        UpgradeType::AutoAttackAddProjectiles(b) => UpgradeState {
            projectiles_bonus: s.projectiles_bonus + b * f,
            ..s
        },
        UpgradeType::AutoAttackAddPiercing(b) => UpgradeState { piercing_bonus: s.piercing_bonus + b * f, ..s },
        UpgradeType::InscribeCircleOfWarding => if !s.circle.0 {
            UpgradeState { circle: (true, s.circle.1), ..s }
        } else {
            UpgradeState { circle: (true, s.circle.1 + 1), ..s }
        },
        UpgradeType::IncreaseCircleDamage(a) => if s.circle.0 {
            UpgradeState { circle: (true, s.circle.1 + a), ..s }
        } else {
            s
        },
        UpgradeType::ManifestSwarmOfNightmares => if !s.swarm.0 {
            UpgradeState { swarm: (true, max_int(s.swarm.1, 2), s.swarm.2), ..s }
        } else {
            UpgradeState { swarm: (true, s.swarm.1 + 1, s.swarm.2 + 1), ..s }
        },
        UpgradeType::IncreaseNightmareCount(c) => if s.swarm.0 {
            UpgradeState { swarm: (true, s.swarm.1 + c, s.swarm.2), ..s }
        } else {
            s
        },
        UpgradeType::IncreaseNightmareDamage(d) => if s.swarm.0 {
            UpgradeState { swarm: (true, s.swarm.1, s.swarm.2 + d), ..s }
        } else {
            s
        },
        UpgradeType::IncreaseSkillDamage { slot_index, amount } => if slot_index < s.equipped.len() {
            let old_skill = s.equipped[slot_index as int];
            UpgradeState {
                equipped: s.equipped.update(slot_index as int, ActiveSkillInstance {
                    flat_damage_bonus: (old_skill.flat_damage_bonus + amount) as i32,
                    current_level: (old_skill.current_level + 1) as u32,
                    ..old_skill
                }),
                ..s
            }
        } else {
            s
        },
        UpgradeType::ReduceSkillCooldown { slot_index, .. } => if slot_index < s.equipped.len() {
            let old_skill = s.equipped[slot_index as int];
            UpgradeState {
                equipped: s.equipped.update(slot_index as int, ActiveSkillInstance {
                    current_level: (old_skill.current_level + 1) as u32,
                    ..old_skill
                }),
                ..s
            }
        } else {
            s
        },
        UpgradeType::IncreaseSkillAoERadius { slot_index, .. } => if slot_index < s.equipped.len() {
            let old_skill = s.equipped[slot_index as int];
            UpgradeState {
                equipped: s.equipped.update(slot_index as int, ActiveSkillInstance {
                    current_level: (old_skill.current_level + 1) as u32,
                    ..old_skill
                }),
                ..s
            }
        } else {
            s
        },
        UpgradeType::GrantSkill(id) => if can_learn(s.equipped, known, id) {
            UpgradeState {
                equipped: s.equipped.push(ActiveSkillInstance {
                    definition_id: id,
                    current_cooldown: 0,
                    current_level: 1,
                    flat_damage_bonus: 0,
                }),
                ..s
            }
        } else {
            s
        },
        UpgradeType::AutoAttackAddFireDamage(b) => UpgradeState { fire_damage: s.fire_damage + b * f, ..s },
        UpgradeType::AutoAttackAddColdDamage(b) => UpgradeState { cold_damage: s.cold_damage + b * f, ..s },
        UpgradeType::AutoAttackAddLightningDamage(b) => UpgradeState {
            lightning_damage: s.lightning_damage + b * f,
            ..s
        },
        UpgradeType::AutoAttackAddPoisonDamage(b) => UpgradeState { poison_dps: s.poison_dps + b * f, ..s },
        UpgradeType::IncreaseArmor(b) => UpgradeState { armor: s.armor + b * f, ..s },
        UpgradeType::OnHitGainTemporaryArmor(b) => UpgradeState { temp_armor: max_int(s.temp_armor, b * f), ..s },
        UpgradeType::AfterBeingHitSpawnRetaliationNova(b) => UpgradeState {
            retaliation_nova: max_int(s.retaliation_nova, b * f),
            ..s
        },
        UpgradeType::IncreaseDashCharges(b) => UpgradeState { dash_charges: s.dash_charges + b * f, ..s },
        UpgradeType::GainShieldOnKill(b) => UpgradeState { shield_on_kill: max_int(s.shield_on_kill, b * f), ..s },
        _ => s,
    }
}

/// Every integer of the state fits its machine type.
pub open spec fn upgrade_state_fits(s: UpgradeState) -> bool {
    &&& i32::MIN <= s.max_health <= i32::MAX
    &&& i32::MIN <= s.health <= i32::MAX
    &&& i32::MIN <= s.damage_bonus <= i32::MAX
    &&& 0 <= s.piercing_bonus <= u32::MAX
    &&& 0 <= s.projectiles_bonus <= u32::MAX
    &&& 0 <= s.fire_damage <= u32::MAX
    &&& 0 <= s.cold_damage <= u32::MAX
    &&& 0 <= s.lightning_damage <= u32::MAX
    &&& 0 <= s.poison_dps <= u32::MAX
    &&& 0 <= s.armor <= u32::MAX
    &&& 0 <= s.temp_armor <= u32::MAX
    &&& i32::MIN <= s.retaliation_nova <= i32::MAX
    &&& 0 <= s.dash_charges <= u32::MAX
    &&& 0 <= s.shield_on_kill <= u32::MAX
    &&& i32::MIN <= s.circle.1 <= i32::MAX
    &&& 0 <= s.swarm.1 <= u32::MAX
    &&& i32::MIN <= s.swarm.2 <= i32::MAX
}

/// A card applies without overflow: its rarity-scaled amount, the
/// intermediate health sum, and every resulting integer fit their types.
pub open spec fn upgrade_fits<F>(s: UpgradeState, t: UpgradeType<F>, rarity: UpgradeRarity, known: Seq<SkillId>) -> bool {
    let f = rarity_factor(rarity);
    &&& (t matches UpgradeType::MaxEndurance(a) ==> i32::MIN <= s.health + a <= i32::MAX)
    &&& (t matches UpgradeType::AutoAttackAddProjectiles(b) ==> b * f <= u32::MAX)
    &&& (t matches UpgradeType::AutoAttackAddPiercing(b) ==> b * f <= u32::MAX)
    &&& (t matches UpgradeType::AutoAttackAddFireDamage(b) ==> b * f <= u32::MAX)
    &&& (t matches UpgradeType::AutoAttackAddColdDamage(b) ==> b * f <= u32::MAX)
    &&& (t matches UpgradeType::AutoAttackAddLightningDamage(b) ==> b * f <= u32::MAX)
    &&& (t matches UpgradeType::AutoAttackAddPoisonDamage(b) ==> b * f <= u32::MAX)
    &&& (t matches UpgradeType::IncreaseArmor(b) ==> b * f <= u32::MAX)
    &&& (t matches UpgradeType::OnHitGainTemporaryArmor(b) ==> b * f <= u32::MAX)
    &&& (t matches UpgradeType::AfterBeingHitSpawnRetaliationNova(b) ==> i32::MIN <= b * f <= i32::MAX)
    &&& (t matches UpgradeType::IncreaseDashCharges(b) ==> b * f <= u32::MAX)
    &&& (t matches UpgradeType::GainShieldOnKill(b) ==> b * f <= u32::MAX)
    &&& (t matches UpgradeType::IncreaseSkillDamage { slot_index, amount } ==> (slot_index < s.equipped.len() ==> {
        let k = s.equipped[slot_index as int];
        i32::MIN <= k.flat_damage_bonus + amount <= i32::MAX && k.current_level < u32::MAX
    }))
    &&& (t matches UpgradeType::ReduceSkillCooldown { slot_index, .. } ==> (slot_index < s.equipped.len()
        ==> s.equipped[slot_index as int].current_level < u32::MAX))
    &&& (t matches UpgradeType::IncreaseSkillAoERadius { slot_index, .. } ==> (slot_index < s.equipped.len()
        ==> s.equipped[slot_index as int].current_level < u32::MAX))
    &&& upgrade_state_fits(upgrade_step(s, t, rarity, known))
}

/// Whether a card's amount is real-valued, so that the engine applies it.
pub open spec fn tuned_in_engine<F>(t: UpgradeType<F>) -> bool {
    match t {
        UpgradeType::MaxEndurance(_) | UpgradeType::IncreaseAutoWeaponDamage(_)
        | UpgradeType::IncreaseAutoWeaponPiercing(_) | UpgradeType::IncreaseAutoWeaponProjectiles(_)
        | UpgradeType::AutoAttackAddProjectiles(_) | UpgradeType::AutoAttackAddPiercing(_)
        | UpgradeType::InscribeCircleOfWarding | UpgradeType::IncreaseCircleDamage(_)
        | UpgradeType::ManifestSwarmOfNightmares | UpgradeType::IncreaseNightmareCount(_)
        | UpgradeType::IncreaseNightmareDamage(_) | UpgradeType::IncreaseSkillDamage { .. }
        | UpgradeType::ReduceSkillCooldown { .. } | UpgradeType::IncreaseSkillAoERadius { .. }
        | UpgradeType::GrantRandomRelic | UpgradeType::GrantSkill(_) | UpgradeType::AutoAttackAddFireDamage(_)
        | UpgradeType::AutoAttackAddColdDamage(_) | UpgradeType::AutoAttackAddLightningDamage(_)
        | UpgradeType::AutoAttackAddPoisonDamage(_) | UpgradeType::IncreaseArmor(_)
        | UpgradeType::OnHitGainTemporaryArmor(_) | UpgradeType::AfterBeingHitSpawnRetaliationNova(_)
        | UpgradeType::IncreaseDashCharges(_) | UpgradeType::GainShieldOnKill(_) => false,
        _ => true,
    }
}

/// A base amount as a card of this rarity grants it: once for a Regular
/// card, twice for a Rare one, three times for a Legendary one.
pub open spec fn rarity_multiple(base: int, rarity: UpgradeRarity) -> int {
    match rarity {
        UpgradeRarity::Regular => base,
        UpgradeRarity::Rare => base + base,
        UpgradeRarity::Legendary => base + base + base,
    }
}

/// The larger of a held "best of" value and a card's value.
pub open spec fn best_of(held: int, offered: int) -> int {
    if offered > held { offered } else { held }
}

/// What each integer card does: flat cards add their amount; the
/// rarity-scaled cards add (or, for "best of" cards, offer) their base amount
/// once, twice or three times by rarity; endurance raises the maximum and
/// heals by the same amount up to it; the circle card inscribes a dormant
/// circle and strengthens an inscribed one by one; the swarm card manifests
/// a dormant swarm with at least two larvae and grows a manifest one by one
/// larva and one damage. Every other number is left as it was.
pub proof fn upgrade_card_effects<F>(s: UpgradeState, t: UpgradeType<F>, rarity: UpgradeRarity, known: Seq<SkillId>)
    ensures
        ({
            let n = upgrade_step(s, t, rarity, known);
            &&& t matches UpgradeType::MaxEndurance(a) ==> n.max_health == s.max_health + a && n.health == if s.health
                + a < s.max_health + a { s.health + a } else { s.max_health + a }
            &&& t matches UpgradeType::IncreaseAutoWeaponDamage(b) ==> n.damage_bonus == s.damage_bonus + b
            &&& t matches UpgradeType::IncreaseAutoWeaponPiercing(a) ==> n.piercing_bonus == s.piercing_bonus + a
            &&& t matches UpgradeType::IncreaseAutoWeaponProjectiles(a) ==> n.projectiles_bonus == s.projectiles_bonus
                + a
            &&& t matches UpgradeType::AutoAttackAddProjectiles(b) ==> n.projectiles_bonus == s.projectiles_bonus
                + rarity_multiple(b as int, rarity)
            &&& t matches UpgradeType::AutoAttackAddPiercing(b) ==> n.piercing_bonus == s.piercing_bonus
                + rarity_multiple(b as int, rarity)
            &&& t matches UpgradeType::AutoAttackAddFireDamage(b) ==> n.fire_damage == s.fire_damage + rarity_multiple(
                b as int,
                rarity,
            )
            &&& t matches UpgradeType::AutoAttackAddColdDamage(b) ==> n.cold_damage == s.cold_damage + rarity_multiple(
                b as int,
                rarity,
            )
            &&& t matches UpgradeType::AutoAttackAddLightningDamage(b) ==> n.lightning_damage == s.lightning_damage
                + rarity_multiple(b as int, rarity)
            &&& t matches UpgradeType::AutoAttackAddPoisonDamage(b) ==> n.poison_dps == s.poison_dps
                + rarity_multiple(b as int, rarity)
            &&& t matches UpgradeType::IncreaseArmor(b) ==> n.armor == s.armor + rarity_multiple(b as int, rarity)
            &&& t matches UpgradeType::IncreaseDashCharges(b) ==> n.dash_charges == s.dash_charges + rarity_multiple(
                b as int,
                rarity,
            )
            &&& t matches UpgradeType::OnHitGainTemporaryArmor(b) ==> n.temp_armor == best_of(
                s.temp_armor,
                rarity_multiple(b as int, rarity),
            )
            &&& t matches UpgradeType::AfterBeingHitSpawnRetaliationNova(b) ==> n.retaliation_nova == best_of(
                s.retaliation_nova,
                rarity_multiple(b as int, rarity),
            )
            &&& t matches UpgradeType::GainShieldOnKill(b) ==> n.shield_on_kill == best_of(
                s.shield_on_kill,
                rarity_multiple(b as int, rarity),
            )
            &&& t is InscribeCircleOfWarding ==> n.circle.0 && n.circle.1 == if s.circle.0 {
                s.circle.1 + 1
            } else {
                s.circle.1
            }
            &&& t matches UpgradeType::IncreaseCircleDamage(a) ==> n.circle == if s.circle.0 {
                (true, s.circle.1 + a)
            } else {
                s.circle
            }
            &&& t is ManifestSwarmOfNightmares ==> n.swarm.0 && if s.swarm.0 {
                n.swarm.1 == s.swarm.1 + 1 && n.swarm.2 == s.swarm.2 + 1
            } else {
                n.swarm.1 == best_of(s.swarm.1, 2) && n.swarm.2 == s.swarm.2
            }
            &&& t matches UpgradeType::IncreaseNightmareCount(c) ==> n.swarm == if s.swarm.0 {
                (true, s.swarm.1 + c, s.swarm.2)
            } else {
                s.swarm
            }
            &&& t matches UpgradeType::IncreaseNightmareDamage(d) ==> n.swarm == if s.swarm.0 {
                (true, s.swarm.1, s.swarm.2 + d)
            } else {
                s.swarm
            }
            &&& tuned_in_engine(t) ==> n == s
        }),
{
    let f = rarity_factor(rarity);
    assert forall|b: int| #[trigger] (b * f) == rarity_multiple(b, rarity) by {
        match rarity {
            UpgradeRarity::Regular => {},
            UpgradeRarity::Rare => {},
            UpgradeRarity::Legendary => {},
        }
    }
}

/// What the engine still has to do after an upgrade card was applied here.
#[derive(Debug, Clone, Copy, PartialEq, Eq, Structural)]
pub enum UpgradeFollowUp {
    /// Nothing: the card was fully applied.
    Done,
    /// Apply the card's real-valued amount to the engine-side stats.
    TuneInEngine,
    /// The circle was already inscribed: widen its radius as well.
    WidenCircle,
    /// The skill in this slot gained a level: scale its cooldown or area
    /// multiplier as well.
    ScaleSkillSlot(usize),
    /// Collect this relic, chosen at random from the library.
    CollectRelic(ItemId),
}

/// The follow-up a card calls for, except for a random relic.
pub open spec fn expected_follow_up<F>(s: UpgradeState, t: UpgradeType<F>) -> UpgradeFollowUp {
    if tuned_in_engine(t) {
        UpgradeFollowUp::TuneInEngine
    } else {
        match t {
            UpgradeType::InscribeCircleOfWarding => if s.circle.0 { UpgradeFollowUp::WidenCircle } else {
                UpgradeFollowUp::Done
            },
            UpgradeType::ReduceSkillCooldown { slot_index, .. } => if slot_index < s.equipped.len() {
                UpgradeFollowUp::ScaleSkillSlot(slot_index)
            } else {
                UpgradeFollowUp::Done
            },
            UpgradeType::IncreaseSkillAoERadius { slot_index, .. } => if slot_index < s.equipped.len() {
                UpgradeFollowUp::ScaleSkillSlot(slot_index)
            } else {
                UpgradeFollowUp::Done
            },
            _ => UpgradeFollowUp::Done,
        }
    }
}

} // verus!

verus! {

/// Applies the integer part of a chosen upgrade card to the survivor, its
/// health and its auras, and says what the engine must still do. A random
/// relic card picks a relic of the library at random, if it has any.
#[verifier::rlimit(60)]
pub fn apply_chosen_upgrade<F: Copy, FI, CI, FS, VS, CS>(
    survivor: &mut Survivor,
    health: &mut i32,
    circle: &mut CircleOfWarding,
    swarm: &mut SwarmOfNightmares,
    card: &UpgradeCard<F>,
    items: &ItemLibrary<FI, CI>,
    skills: &SkillLibrary<FS, VS, CS>,
) -> (follow_up: UpgradeFollowUp)
    requires
        upgrade_fits(upgrade_view(*old(survivor), *old(health), *old(circle), *old(swarm)), card.upgrade_type,
            card.rarity, skills.ids()),
    ensures
        upgrade_view(*final(survivor), *final(health), *final(circle), *final(swarm)) == upgrade_step(
            upgrade_view(*old(survivor), *old(health), *old(circle), *old(swarm)), card.upgrade_type, card.rarity,
            skills.ids()),
        !(card.upgrade_type is GrantRandomRelic) ==> follow_up == expected_follow_up(
            upgrade_view(*old(survivor), *old(health), *old(circle), *old(swarm)), card.upgrade_type),
        card.upgrade_type is GrantRandomRelic ==> (items.items@.len() == 0 <==> follow_up == UpgradeFollowUp::Done)
            && (follow_up matches UpgradeFollowUp::CollectRelic(id) ==> items.ids().contains(id)),
        final(survivor).collected_item_ids@ == old(survivor).collected_item_ids@,
        final(survivor).level == old(survivor).level,
        final(survivor).experience == old(survivor).experience,
        final(survivor).current_level_xp == old(survivor).current_level_xp,
        final(survivor).inherent_weapon_id == old(survivor).inherent_weapon_id,
        final(survivor).auto_attack_aoe_on_hit_damage == old(survivor).auto_attack_aoe_on_hit_damage,
        final(survivor).orbiter_explosion_damage == old(survivor).orbiter_explosion_damage,
        skills_well_formed(old(survivor).equipped_skills@) ==> skills_well_formed(final(survivor).equipped_skills@),
        card.upgrade_type matches UpgradeType::IncreaseArmor(b) ==> final(survivor).armor == old(survivor).armor
            + rarity_multiple(b as int, card.rarity),
        card.upgrade_type matches UpgradeType::IncreaseDashCharges(b) ==> final(survivor).max_dash_charges == old(survivor).max_dash_charges + rarity_multiple(b as int, card.rarity),
        card.upgrade_type matches UpgradeType::AutoAttackAddFireDamage(b) ==> final(survivor).auto_attack_bonus_fire_damage
            == old(survivor).auto_attack_bonus_fire_damage + rarity_multiple(b as int, card.rarity),
        card.upgrade_type matches UpgradeType::AutoAttackAddColdDamage(b) ==> final(survivor).auto_attack_bonus_cold_damage
            == old(survivor).auto_attack_bonus_cold_damage + rarity_multiple(b as int, card.rarity),
        card.upgrade_type matches UpgradeType::AutoAttackAddLightningDamage(b) ==> final(survivor).auto_attack_bonus_lightning_damage == old(survivor).auto_attack_bonus_lightning_damage + rarity_multiple(
            b as int,
            card.rarity,
        ),
        card.upgrade_type matches UpgradeType::AutoAttackAddPoisonDamage(b) ==> final(survivor).auto_attack_poison_dps
            == old(survivor).auto_attack_poison_dps + rarity_multiple(b as int, card.rarity),
        card.upgrade_type matches UpgradeType::AutoAttackAddProjectiles(b) ==> final(survivor).auto_weapon_additional_projectiles_bonus == old(survivor).auto_weapon_additional_projectiles_bonus
            + rarity_multiple(b as int, card.rarity),
        card.upgrade_type matches UpgradeType::AutoAttackAddPiercing(b) ==> final(survivor).auto_weapon_piercing_bonus
            == old(survivor).auto_weapon_piercing_bonus + rarity_multiple(b as int, card.rarity),
        card.upgrade_type matches UpgradeType::OnHitGainTemporaryArmor(b) ==> final(survivor).on_hit_temp_armor_bonus
            == best_of(old(survivor).on_hit_temp_armor_bonus as int, rarity_multiple(b as int, card.rarity)),
        card.upgrade_type matches UpgradeType::AfterBeingHitSpawnRetaliationNova(b) ==> final(survivor).after_being_hit_retaliation_nova_damage == best_of(
            old(survivor).after_being_hit_retaliation_nova_damage as int,
            rarity_multiple(b as int, card.rarity),
        ),
        card.upgrade_type matches UpgradeType::GainShieldOnKill(b) ==> final(survivor).shield_on_kill_amount
            == best_of(old(survivor).shield_on_kill_amount as int, rarity_multiple(b as int, card.rarity)),
{
    let ghost before = upgrade_view(*survivor, *health, *circle, *swarm);
    proof {
        upgrade_card_effects(before, card.upgrade_type, card.rarity, skills.ids());
    }
    let rarity = card.rarity;
    match card.upgrade_type {
        UpgradeType::MaxEndurance(amount) => {
            survivor.max_health = survivor.max_health + amount;
            let raised = *health + amount;
            *health = if raised < survivor.max_health { raised } else { survivor.max_health };
            UpgradeFollowUp::Done
        },
        UpgradeType::IncreaseAutoWeaponDamage(bonus) => {
            survivor.auto_weapon_damage_bonus = survivor.auto_weapon_damage_bonus + bonus;
            UpgradeFollowUp::Done
        },
        UpgradeType::IncreaseAutoWeaponPiercing(amount) => {
            survivor.auto_weapon_piercing_bonus = survivor.auto_weapon_piercing_bonus + amount;
            UpgradeFollowUp::Done
        },
        UpgradeType::IncreaseAutoWeaponProjectiles(amount) => {
            survivor.auto_weapon_additional_projectiles_bonus = survivor.auto_weapon_additional_projectiles_bonus
                + amount;
            UpgradeFollowUp::Done
        },
        UpgradeType::AutoAttackAddProjectiles(base) => {
            let add = scale_by_rarity(base, rarity);
            survivor.auto_weapon_additional_projectiles_bonus = survivor.auto_weapon_additional_projectiles_bonus
                + add;
            UpgradeFollowUp::Done
        },
        UpgradeType::AutoAttackAddPiercing(base) => {
            let add = scale_by_rarity(base, rarity);
            survivor.auto_weapon_piercing_bonus = survivor.auto_weapon_piercing_bonus + add;
            UpgradeFollowUp::Done
        },
        UpgradeType::InscribeCircleOfWarding => {
            if !circle.is_active {
                circle.is_active = true;
                UpgradeFollowUp::Done
            } else {
                circle.base_damage_per_tick = circle.base_damage_per_tick + 1;
                UpgradeFollowUp::WidenCircle
            }
        },
        UpgradeType::IncreaseCircleDamage(amount) => {
            if circle.is_active {
                circle.base_damage_per_tick = circle.base_damage_per_tick + amount;
            }
            UpgradeFollowUp::Done
        },
        UpgradeType::ManifestSwarmOfNightmares => {
            if !swarm.is_active {
                swarm.is_active = true;
                swarm.num_larvae = if swarm.num_larvae >= 2 { swarm.num_larvae } else { 2 };
            } else {
                swarm.num_larvae = swarm.num_larvae + 1;
                swarm.damage_per_hit = swarm.damage_per_hit + 1;
            }
            UpgradeFollowUp::Done
        },
        UpgradeType::IncreaseNightmareCount(count) => {
            if swarm.is_active {
                swarm.num_larvae = swarm.num_larvae + count;
            }
            UpgradeFollowUp::Done
        },
        UpgradeType::IncreaseNightmareDamage(damage) => {
            if swarm.is_active {
                swarm.damage_per_hit = swarm.damage_per_hit + damage;
            }
            UpgradeFollowUp::Done
        },
        UpgradeType::IncreaseSkillDamage { slot_index, amount } => {
            survivor.empower_skill(slot_index, amount);
            UpgradeFollowUp::Done
        },
        UpgradeType::ReduceSkillCooldown { slot_index, .. } => {
            if survivor.level_skill(slot_index) {
                UpgradeFollowUp::ScaleSkillSlot(slot_index)
            } else {
                UpgradeFollowUp::Done
            }
        },
        UpgradeType::IncreaseSkillAoERadius { slot_index, .. } => {
            if survivor.level_skill(slot_index) {
                UpgradeFollowUp::ScaleSkillSlot(slot_index)
            } else {
                UpgradeFollowUp::Done
            }
        },
        UpgradeType::GrantRandomRelic => {
            match items.random_relic() {
                Some(id) => UpgradeFollowUp::CollectRelic(id),
                None => UpgradeFollowUp::Done,
            }
        },
        UpgradeType::GrantSkill(id) => {
            survivor.grant_skill(id, skills);
            UpgradeFollowUp::Done
        },
        UpgradeType::AutoAttackAddFireDamage(base) => {
            let add = scale_by_rarity(base, rarity);
            survivor.auto_attack_bonus_fire_damage = survivor.auto_attack_bonus_fire_damage + add;
            UpgradeFollowUp::Done
        },
        UpgradeType::AutoAttackAddColdDamage(base) => {
            let add = scale_by_rarity(base, rarity);
            survivor.auto_attack_bonus_cold_damage = survivor.auto_attack_bonus_cold_damage + add;
            UpgradeFollowUp::Done
        },
        UpgradeType::AutoAttackAddLightningDamage(base) => {
            let add = scale_by_rarity(base, rarity);
            survivor.auto_attack_bonus_lightning_damage = survivor.auto_attack_bonus_lightning_damage + add;
            UpgradeFollowUp::Done
        },
        UpgradeType::AutoAttackAddPoisonDamage(base) => {
            let add = scale_by_rarity(base, rarity);
            survivor.auto_attack_poison_dps = survivor.auto_attack_poison_dps + add;
            UpgradeFollowUp::Done
        },
        UpgradeType::IncreaseArmor(base) => {
            let add = scale_by_rarity(base, rarity);
            survivor.armor = survivor.armor + add;
            UpgradeFollowUp::Done
        },
        UpgradeType::OnHitGainTemporaryArmor(base) => {
            let value = scale_by_rarity(base, rarity);
            if value > survivor.on_hit_temp_armor_bonus {
                survivor.on_hit_temp_armor_bonus = value;
            }
            UpgradeFollowUp::Done
        },
        UpgradeType::AfterBeingHitSpawnRetaliationNova(base) => {
            let value = scale_signed_by_rarity(base, rarity);
            if value > survivor.after_being_hit_retaliation_nova_damage {
                survivor.after_being_hit_retaliation_nova_damage = value;
            }
            UpgradeFollowUp::Done
        },
        UpgradeType::IncreaseDashCharges(base) => {
            let add = scale_by_rarity(base, rarity);
            survivor.max_dash_charges = survivor.max_dash_charges + add;
            UpgradeFollowUp::Done
        },
        UpgradeType::GainShieldOnKill(base) => {
            let value = scale_by_rarity(base, rarity);
            if value > survivor.shield_on_kill_amount {
                survivor.shield_on_kill_amount = value;
            }
            UpgradeFollowUp::Done
        },
        _ => UpgradeFollowUp::TuneInEngine,
    }
}

} // verus!

verus! {

fn fits_i32(v: i64) -> (r: bool)
    ensures
        r == (i32::MIN <= v <= i32::MAX),
{
    i32::MIN as i64 <= v && v <= i32::MAX as i64
}

fn fits_u32(v: i64) -> (r: bool)
    ensures
        r == (0 <= v <= u32::MAX),
{
    0 <= v && v <= u32::MAX as i64
}

fn factor_of(rarity: UpgradeRarity) -> (f: i64)
    ensures
        f == rarity_factor(rarity),
{
    match rarity {
        UpgradeRarity::Regular => 1,
        UpgradeRarity::Rare => 2,
        UpgradeRarity::Legendary => 3,
    }
}

/// Whether the card can be applied to this state without an integer
/// overflowing: exactly when `apply_chosen_upgrade` may be called.
#[verifier::rlimit(40)]
pub fn upgrade_applies<F, FS, VS, CS>(
    survivor: &Survivor,
    health: i32,
    circle: &CircleOfWarding,
    swarm: &SwarmOfNightmares,
    card: &UpgradeCard<F>,
    skills: &SkillLibrary<FS, VS, CS>,
) -> (r: bool)
    ensures
        r == upgrade_fits(upgrade_view(*survivor, health, *circle, *swarm), card.upgrade_type, card.rarity,
            skills.ids()),
{
    let f = factor_of(card.rarity);
    let s = survivor;
    match &card.upgrade_type {
        UpgradeType::MaxEndurance(a) => fits_i32(health as i64 + *a as i64) && fits_i32(
            s.max_health as i64 + *a as i64,
        ),
        UpgradeType::IncreaseAutoWeaponDamage(b) => fits_i32(s.auto_weapon_damage_bonus as i64 + *b as i64),
        UpgradeType::IncreaseAutoWeaponPiercing(a) => fits_u32(s.auto_weapon_piercing_bonus as i64 + *a as i64),
        UpgradeType::IncreaseAutoWeaponProjectiles(a) => fits_u32(
            s.auto_weapon_additional_projectiles_bonus as i64 + *a as i64,
        ),
        UpgradeType::AutoAttackAddProjectiles(b) => fits_u32(*b as i64 * f) && fits_u32(
            s.auto_weapon_additional_projectiles_bonus as i64 + *b as i64 * f,
        ),
        UpgradeType::AutoAttackAddPiercing(b) => fits_u32(*b as i64 * f) && fits_u32(
            s.auto_weapon_piercing_bonus as i64 + *b as i64 * f,
        ),
        UpgradeType::InscribeCircleOfWarding => !circle.is_active || fits_i32(
            circle.base_damage_per_tick as i64 + 1,
        ),
        UpgradeType::IncreaseCircleDamage(a) => !circle.is_active || fits_i32(
            circle.base_damage_per_tick as i64 + *a as i64,
        ),
        UpgradeType::ManifestSwarmOfNightmares => !swarm.is_active || (fits_u32(swarm.num_larvae as i64 + 1)
            && fits_i32(swarm.damage_per_hit as i64 + 1)),
        UpgradeType::IncreaseNightmareCount(c) => !swarm.is_active || fits_u32(
            swarm.num_larvae as i64 + *c as i64,
        ),
        UpgradeType::IncreaseNightmareDamage(d) => !swarm.is_active || fits_i32(
            swarm.damage_per_hit as i64 + *d as i64,
        ),
        UpgradeType::IncreaseSkillDamage { slot_index, amount } => {
            if *slot_index < s.equipped_skills.len() {
                let k = &s.equipped_skills[*slot_index];
                fits_i32(k.flat_damage_bonus as i64 + *amount as i64) && k.current_level < u32::MAX
            } else {
                true
            }
        },
        UpgradeType::ReduceSkillCooldown { slot_index, .. } => *slot_index >= s.equipped_skills.len()
            || s.equipped_skills[*slot_index].current_level < u32::MAX,
        UpgradeType::IncreaseSkillAoERadius { slot_index, .. } => *slot_index >= s.equipped_skills.len()
            || s.equipped_skills[*slot_index].current_level < u32::MAX,
        UpgradeType::AutoAttackAddFireDamage(b) => fits_u32(*b as i64 * f) && fits_u32(
            s.auto_attack_bonus_fire_damage as i64 + *b as i64 * f,
        ),
        UpgradeType::AutoAttackAddColdDamage(b) => fits_u32(*b as i64 * f) && fits_u32(
            s.auto_attack_bonus_cold_damage as i64 + *b as i64 * f,
        ),
        UpgradeType::AutoAttackAddLightningDamage(b) => fits_u32(*b as i64 * f) && fits_u32(
            s.auto_attack_bonus_lightning_damage as i64 + *b as i64 * f,
        ),
        UpgradeType::AutoAttackAddPoisonDamage(b) => fits_u32(*b as i64 * f) && fits_u32(
            s.auto_attack_poison_dps as i64 + *b as i64 * f,
        ),
        UpgradeType::IncreaseArmor(b) => fits_u32(*b as i64 * f) && fits_u32(s.armor as i64 + *b as i64 * f),
        UpgradeType::OnHitGainTemporaryArmor(b) => fits_u32(*b as i64 * f),
        UpgradeType::AfterBeingHitSpawnRetaliationNova(b) => fits_i32(*b as i64 * f),
        UpgradeType::IncreaseDashCharges(b) => fits_u32(*b as i64 * f) && fits_u32(
            s.max_dash_charges as i64 + *b as i64 * f,
        ),
        UpgradeType::GainShieldOnKill(b) => fits_u32(*b as i64 * f),
        _ => true,
    }
}

/// The integer part of a card whose amount is real-valued, once the engine
/// has scaled the amount by the card's rarity and truncated it.
#[derive(Debug, Clone, Copy, PartialEq, Eq, Structural)]
pub enum EngineScaledBonus {
    /// From `AutoAttackDamagePercent`: added to the weapon damage bonus.
    WeaponDamage(i32),
    /// From `AutoAttackAreaDamageOnHitChance`: the area damage dealt on hit
    /// becomes the larger of the current one and this.
    AreaDamageOnHit(u32),
    /// From `OrbiterExplodeOnKillChance`: the orbiters' explosion damage
    /// becomes the larger of the current one and this.
    OrbiterExplosion(u32),
}

/// Whether the bonus applies without the weapon damage bonus overflowing.
pub open spec fn engine_scaled_fits(s: Survivor, bonus: EngineScaledBonus) -> bool {
    bonus matches EngineScaledBonus::WeaponDamage(d) ==> i32::MIN <= s.auto_weapon_damage_bonus + d <= i32::MAX
}

/// The survivor after the bonus: one field changes, every other stays.
pub open spec fn with_engine_scaled_bonus(s: Survivor, bonus: EngineScaledBonus) -> Survivor {
    match bonus {
        EngineScaledBonus::WeaponDamage(d) => Survivor {
            auto_weapon_damage_bonus: (s.auto_weapon_damage_bonus + d) as i32,
            ..s
        },
        EngineScaledBonus::AreaDamageOnHit(d) => Survivor {
            auto_attack_aoe_on_hit_damage: if d > s.auto_attack_aoe_on_hit_damage {
                d
            } else {
                s.auto_attack_aoe_on_hit_damage
            },
            ..s
        },
        EngineScaledBonus::OrbiterExplosion(d) => Survivor {
            orbiter_explosion_damage: if d > s.orbiter_explosion_damage {
                d
            } else {
                s.orbiter_explosion_damage
            },
            ..s
        },
    }
}

/// Applies the truncated integer amount of a real-valued card to the
/// survivor.
pub fn apply_engine_scaled_bonus(survivor: &mut Survivor, bonus: EngineScaledBonus)
    requires
        engine_scaled_fits(*old(survivor), bonus),
    ensures
        *final(survivor) == with_engine_scaled_bonus(*old(survivor), bonus),
{
    match bonus {
        EngineScaledBonus::WeaponDamage(d) => {
            survivor.auto_weapon_damage_bonus = survivor.auto_weapon_damage_bonus + d;
        },
        EngineScaledBonus::AreaDamageOnHit(d) => {
            if d > survivor.auto_attack_aoe_on_hit_damage {
                survivor.auto_attack_aoe_on_hit_damage = d;
            }
        },
        EngineScaledBonus::OrbiterExplosion(d) => {
            if d > survivor.orbiter_explosion_damage {
                survivor.orbiter_explosion_damage = d;
            }
        },
    }
}

/// Whether `apply_engine_scaled_bonus` may be called with this bonus.
pub fn engine_scaled_bonus_fits(survivor: &Survivor, bonus: EngineScaledBonus) -> (r: bool)
    ensures
        r == engine_scaled_fits(*survivor, bonus),
{
    match bonus {
        EngineScaledBonus::WeaponDamage(d) => fits_i32(survivor.auto_weapon_damage_bonus as i64 + d as i64),
        _ => true,
    }
}

} // verus!
