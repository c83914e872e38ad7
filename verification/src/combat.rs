use vstd::prelude::*;
use crate::items::AutomaticWeaponId;

verus! {

/// A temporary shield that soaks damage before health does.
#[derive(Debug, Clone, Copy, PartialEq, Eq, Structural)]
pub struct ActiveShield {
    pub amount: i32,
}

/// What a shield left of an incoming hit.
#[derive(Debug, Clone, Copy, PartialEq, Eq, Structural)]
pub struct ShieldAbsorption {
    pub damage_to_take: i32,
    pub shield_removed: bool,
}

impl ActiveShield {
    /// Soaks `damage`: a shield with a positive amount absorbs as much as it
    /// holds, and is removed when that empties it. A shield without a positive
    /// amount absorbs nothing and stays.
    pub fn absorb(&mut self, damage: i32) -> (r: ShieldAbsorption)
        requires
            old(self).amount > 0 && damage < old(self).amount ==> old(self).amount - damage <= i32::MAX,
        ensures
            old(self).amount > 0 ==> {
                let absorbed = if damage < old(self).amount { damage as int } else { old(self).amount as int };
                &&& final(self).amount == old(self).amount - absorbed
                &&& r.damage_to_take == damage - absorbed
                &&& r.shield_removed == (final(self).amount <= 0)
            },
            old(self).amount <= 0 ==> final(self).amount == old(self).amount && r.damage_to_take == damage
                && !r.shield_removed,
            r.damage_to_take + (old(self).amount - final(self).amount) == damage,
    {
        let mut damage_to_take = damage;
        let mut removed = false;
        if self.amount > 0 {
            let absorbed = if damage_to_take < self.amount { damage_to_take } else { self.amount };
            self.amount = self.amount - absorbed;
            damage_to_take = damage_to_take - absorbed;
            if self.amount <= 0 {
                removed = true;
            }
        }
        ShieldAbsorption { damage_to_take, shield_removed: removed }
    }
}

/// Spec of the damage left after an optional shield.
pub open spec fn damage_after_shield(shield: Option<ActiveShield>, damage: int) -> int {
    match shield {
        Some(s) => if s.amount > 0 { if damage < s.amount { 0 } else { damage - s.amount } } else { damage },
        None => damage,
    }
}

/// A shield soaks a hit before health does: of a non-negative hit, what is
/// left for health is never negative and never more than the hit; a shield
/// with a positive amount lets nothing through while the hit is smaller than
/// it, and otherwise exactly the part of the hit beyond its amount; no shield,
/// or one without a positive amount, lets the whole hit through.
pub proof fn shield_soaks_first(shield: Option<ActiveShield>, damage: int)
    requires
        damage >= 0,
    ensures
        0 <= damage_after_shield(shield, damage) <= damage,
        shield is Some && shield.unwrap().amount > 0 ==> damage_after_shield(shield, damage) + if damage
            < shield.unwrap().amount {
            damage
        } else {
            shield.unwrap().amount as int
        } == damage,
        shield is Some && shield.unwrap().amount > 0 ==> (damage_after_shield(shield, damage) == 0 <==> damage
            <= shield.unwrap().amount),
        !(shield is Some && shield.unwrap().amount > 0) ==> damage_after_shield(shield, damage) == damage,
{
}

/// Whether a hit of `damage` against `health` behind `shield` stays in `i32`.
pub open spec fn hit_fits(health: i32, shield: Option<ActiveShield>, damage: i32) -> bool {
    &&& (shield matches Some(s) ==> (s.amount > 0 && damage < s.amount ==> s.amount - damage <= i32::MAX))
    &&& (damage_after_shield(shield, damage as int) > 0 ==> health - damage_after_shield(shield, damage as int)
        >= i32::MIN)
}

/// Applies a hit to the survivor: an active shield soaks what it can (and is
/// dropped once it empties), then any positive remainder comes off health.
pub fn take_hit(health: &mut i32, shield: &mut Option<ActiveShield>, damage: i32)
    requires
        hit_fits(*old(health), *old(shield), damage),
    ensures
        ({
            let rest = damage_after_shield(*old(shield), damage as int);
            *final(health) == if rest > 0 { *old(health) - rest } else { *old(health) as int }
        }),
        match *old(shield) {
            None => final(shield).is_none(),
            Some(s) => if s.amount > 0 {
                if damage < s.amount { *final(shield) == Some(ActiveShield { amount: (s.amount - damage) as i32 }) }
                else { final(shield).is_none() }
            } else {
                *final(shield) == Some(s)
            },
        },
{
    let mut damage_to_take = damage;
    let mut drop_shield = false;
    match shield {
        Some(s) => {
            let r = s.absorb(damage);
            damage_to_take = r.damage_to_take;
            drop_shield = r.shield_removed;
        },
        None => {},
    }
    if drop_shield {
        *shield = None;
    }
    if damage_to_take > 0 {
        *health = *health - damage_to_take;
    }
}

/// Heals by a positive amount without exceeding `max_health`; other amounts
/// leave health unchanged.
pub fn heal_capped(health: i32, amount: i32, max_health: i32) -> (r: i32)
    requires
        amount > 0 ==> health + amount <= i32::MAX,
    ensures
        amount > 0 ==> r == if health + amount < max_health { health + amount } else { max_health as int },
        amount <= 0 ==> r == health,
{
    if amount > 0 {
        let raised = health + amount;
        if raised < max_health { raised } else { max_health }
    } else {
        health
    }
}

/// Whether passive regeneration applies: the bearer is alive and below its
/// maximum.
pub fn can_regenerate(health: i32, max_health: i32) -> (r: bool)
    ensures
        r == (health > 0 && health < max_health),
{
    health > 0 && health < max_health
}

/// Health after a regeneration step that produced `regenerated` (already
/// rounded), capped at `max_health`.
pub fn cap_health(regenerated: i32, max_health: i32) -> (r: i32)
    ensures
        r == if regenerated < max_health { regenerated } else { max_health },
{
    if regenerated < max_health { regenerated } else { max_health }
}

/// A horror's health after `damage`: the difference, held within the bounds
/// of `i32`.
pub open spec fn damage_horror_spec(health: int, damage: int) -> int {
    if health - damage < i32::MIN {
        i32::MIN as int
    } else if health - damage > i32::MAX {
        i32::MAX as int
    } else {
        health - damage
    }
}

/// A hit never heals a horror and a heal never hurts it: the result lies
/// between the health and the health minus the damage, and it is exactly the
/// difference whenever that fits in `i32`.
pub proof fn horror_damage_is_the_difference(health: i32, damage: i32)
    ensures
        damage >= 0 ==> health - damage <= damage_horror_spec(health as int, damage as int) <= health,
        damage <= 0 ==> health <= damage_horror_spec(health as int, damage as int) <= health - damage,
        i32::MIN <= health - damage <= i32::MAX ==> damage_horror_spec(health as int, damage as int) == health - damage,
        i32::MIN <= damage_horror_spec(health as int, damage as int) <= i32::MAX,
{
}

/// Damage dealt to a horror: health drops by `damage`, stopping at the
/// bounds of `i32`.
pub fn damage_horror(health: i32, damage: i32) -> (r: i32)
    ensures
        r == damage_horror_spec(health as int, damage as int),
{
    let wide: i64 = health as i64 - damage as i64;
    if wide < i32::MIN as i64 {
        i32::MIN
    } else if wide > i32::MAX as i64 {
        i32::MAX
    } else {
        wide as i32
    }
}

} // verus!
