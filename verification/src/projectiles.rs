use vstd::prelude::*;
use crate::items::AutomaticWeaponId;
use crate::skills::SkillId;

verus! {

/// The integer state of a projectile fired by an automatic weapon. Speed,
/// per-bounce loss factors and on-hit extras are kept by the engine.
#[derive(Debug, Clone, Copy, PartialEq, Eq, Structural)]
pub struct AutomaticProjectile {
    pub piercing_left: u32,
    pub weapon_id: AutomaticWeaponId,
    pub bounces_left: Option<u32>,
    pub damage_on_hit: i32,
    pub has_bounced_this_frame: bool,
}

impl AutomaticProjectile {
    /// A spent projectile: no piercing, no bounces, no damage, weapon 0.
    pub fn default() -> (p: Self)
        ensures
            p.piercing_left == 0,
            p.weapon_id == AutomaticWeaponId(0),
            p.bounces_left.is_none(),
            p.damage_on_hit == 0,
            !p.has_bounced_this_frame,
    {
        AutomaticProjectile {
            piercing_left: 0,
            weapon_id: AutomaticWeaponId(0),
            bounces_left: None,
            damage_on_hit: 0,
            has_bounced_this_frame: false,
        }
    }

    /// A projectile as a weapon launches it.
    pub fn launched(weapon_id: AutomaticWeaponId, damage: i32, piercing: u32, max_bounces: Option<u32>) -> (p: Self)
        ensures
            p.piercing_left == piercing,
            p.weapon_id == weapon_id,
            p.bounces_left == max_bounces,
            p.damage_on_hit == damage,
            !p.has_bounced_this_frame,
    {
        AutomaticProjectile {
            piercing_left: piercing,
            weapon_id,
            bounces_left: max_bounces,
            damage_on_hit: damage,
            has_bounced_this_frame: false,
        }
    }

    /// Whether this projectile still has a bounce to spend.
    pub open spec fn can_bounce(&self) -> bool {
        self.bounces_left matches Some(b) && b > 0
    }

    /// Updates the projectile after it struck a horror. Only the first hit it
    /// registers in a frame counts: a projectile that can still bounce (and has
    /// not bounced this frame) keeps its piercing; otherwise one pierce is used
    /// up when there is one left. The result says whether the projectile is
    /// spent: no piercing left and no bounce taken.
    pub fn register_hit(&mut self, first_hit_this_frame: bool) -> (despawn: bool)
        ensures
            !first_hit_this_frame ==> !despawn && *final(self) == *old(self),
            first_hit_this_frame ==> {
                let bounce = old(self).can_bounce() && !old(self).has_bounced_this_frame;
                &&& final(self).piercing_left == if !bounce && old(self).piercing_left > 0 {
                        (old(self).piercing_left - 1) as u32 } else { old(self).piercing_left }
                &&& despawn == (final(self).piercing_left == 0 && !bounce)
                &&& final(self).bounces_left == old(self).bounces_left
                &&& final(self).damage_on_hit == old(self).damage_on_hit
                &&& final(self).weapon_id == old(self).weapon_id
                &&& final(self).has_bounced_this_frame == old(self).has_bounced_this_frame
            },
    {
        if !first_hit_this_frame {
            return false;
        }
        let bounce = match self.bounces_left {
            Some(b) => b > 0 && !self.has_bounced_this_frame,
            None => false,
        };
        if !bounce {
            if self.piercing_left > 0 {
                self.piercing_left = self.piercing_left - 1;
            }
        }
        self.piercing_left == 0 && !bounce
    }

    /// What the projectile does at the edge of the screen. `outside` says
    /// whether it is beyond the edge, `heading_out` whether it also moves
    /// further out along an axis on which it is beyond; `damage_after_bounce`
    /// is its damage once the weapon's loss factor is applied. A projectile
    /// that already bounced this frame, or that never bounces, carries on. One
    /// whose bounces are spent is removed once outside. Otherwise, heading out,
    /// it spends a bounce, takes the reduced damage, and is removed when that
    /// was its last bounce.
    pub fn screen_bounce(&mut self, outside: bool, heading_out: bool, damage_after_bounce: i32) -> (r: ScreenBounce)
        ensures
            r == screen_bounce_result(*old(self), outside, heading_out),
            r is Bounce ==> *final(self) == (AutomaticProjectile {
                bounces_left: Some((old(self).bounces_left.unwrap() - 1) as u32),
                has_bounced_this_frame: true,
                damage_on_hit: damage_after_bounce,
                ..*old(self)
            }),
            !(r is Bounce) ==> *final(self) == *old(self),
    {
        if self.has_bounced_this_frame {
            return ScreenBounce::CarryOn;
        }
        match self.bounces_left {
            None => ScreenBounce::CarryOn,
            Some(b) => {
                if b == 0 {
                    if outside {
                        ScreenBounce::Remove
                    } else {
                        ScreenBounce::CarryOn
                    }
                } else if heading_out {
                    self.bounces_left = Some(b - 1);
                    self.has_bounced_this_frame = true;
                    self.damage_on_hit = damage_after_bounce;
                    ScreenBounce::Bounce { last: b == 1 }
                } else {
                    ScreenBounce::CarryOn
                }
            },
        }
    }

    /// Clears the per-frame bounce marker.
    pub fn reset_bounce_flag(&mut self)
        ensures
            *final(self) == (AutomaticProjectile { has_bounced_this_frame: false, ..*old(self) }),
    {
        self.has_bounced_this_frame = false;
    }
}

/// What a projectile does at the edge of the screen.
#[derive(Debug, Clone, Copy, PartialEq, Eq, Structural)]
pub enum ScreenBounce {
    /// Nothing happens.
    CarryOn,
    /// It is removed.
    Remove,
    /// It turns back; when `last`, that was its last bounce and it is removed.
    Bounce { last: bool },
}

/// The outcome of `screen_bounce` for a projectile in state `p`.
pub open spec fn screen_bounce_result(p: AutomaticProjectile, outside: bool, heading_out: bool) -> ScreenBounce {
    if p.has_bounced_this_frame {
        ScreenBounce::CarryOn
    } else {
        match p.bounces_left {
            None => ScreenBounce::CarryOn,
            Some(b) => if b == 0 {
                if outside {
                    ScreenBounce::Remove
                } else {
                    ScreenBounce::CarryOn
                }
            } else if heading_out {
                ScreenBounce::Bounce { last: b == 1 }
            } else {
                ScreenBounce::CarryOn
            },
        }
    }
}

/// Positions of the overlapping horrors, in order.
pub open spec fn overlap_positions(overlaps: Seq<bool>) -> Seq<int>
    decreases overlaps.len(),
{
    if overlaps.len() == 0 {
        Seq::empty()
    } else {
        let rest = overlap_positions(overlaps.drop_last());
        if overlaps.last() { rest.push(overlaps.len() - 1) } else { rest }
    }
}

/// How many overlapping horrors one projectile strikes in a frame: a tether
/// strikes only the first; a projectile that can bounce strikes them all;
/// any other strikes one more than its piercing.
pub open spec fn hit_budget(p: AutomaticProjectile, is_tether: bool) -> int {
    if is_tether { 1 } else if p.can_bounce() { -1 } else { p.piercing_left + 1 }
}

/// The horrors (by position) that a projectile strikes this frame, given which
/// of them its hitbox overlaps: the overlapping horrors in order, cut off after
/// the hit budget is spent.
pub open spec fn planned_hits(p: AutomaticProjectile, is_tether: bool, overlaps: Seq<bool>) -> Seq<int> {
    let all = overlap_positions(overlaps);
    let budget = hit_budget(p, is_tether);
    if budget < 0 || budget >= all.len() { all } else { all.take(budget) }
}

/// The positions of the overlapping horrors are exactly those whose hitbox
/// overlaps, each within the list, in increasing order.
proof fn lemma_overlap_positions(overlaps: Seq<bool>)
    ensures
        forall|k: int| 0 <= k < overlap_positions(overlaps).len() ==> 0 <= #[trigger] overlap_positions(overlaps)[k]
            < overlaps.len() && overlaps[overlap_positions(overlaps)[k]],
        forall|j: int, k: int| 0 <= j < k < overlap_positions(overlaps).len() ==> overlap_positions(overlaps)[j]
            < overlap_positions(overlaps)[k],
        forall|i: int| 0 <= i < overlaps.len() && overlaps[i] ==> overlap_positions(overlaps).contains(i),
    decreases overlaps.len(),
{
    if overlaps.len() > 0 {
        let front = overlaps.drop_last();
        lemma_overlap_positions(front);
        let rest = overlap_positions(front);
        assert forall|i: int| 0 <= i < overlaps.len() && overlaps[i] implies overlap_positions(overlaps).contains(
            i,
        ) by {
            if i < overlaps.len() - 1 {
                assert(front[i] == overlaps[i]);
                let k = choose|k: int| 0 <= k < rest.len() && rest[k] == i;
                assert(overlap_positions(overlaps)[k] == i);
            } else {
                assert(overlap_positions(overlaps)[rest.len() as int] == i);
            }
        }
    }
}

/// A projectile strikes, in a frame, only horrors its hitbox overlaps, each
/// at most once and in list order; never more than its piercing allows
/// (one more than its piercing, one for a tether) unless it can bounce; and
/// when the budget allows, every overlapping horror.
pub proof fn projectile_hits_respect_budget(p: AutomaticProjectile, is_tether: bool, overlaps: Seq<bool>)
    ensures
        forall|k: int| 0 <= k < planned_hits(p, is_tether, overlaps).len() ==> 0 <= #[trigger] planned_hits(
            p,
            is_tether,
            overlaps,
        )[k] < overlaps.len() && overlaps[planned_hits(p, is_tether, overlaps)[k]],
        forall|j: int, k: int| 0 <= j < k < planned_hits(p, is_tether, overlaps).len() ==> planned_hits(
            p,
            is_tether,
            overlaps,
        )[j] < planned_hits(p, is_tether, overlaps)[k],
        is_tether ==> planned_hits(p, is_tether, overlaps).len() <= 1,
        !is_tether && !p.can_bounce() ==> planned_hits(p, is_tether, overlaps).len() <= p.piercing_left + 1,
        !is_tether && p.can_bounce() ==> planned_hits(p, is_tether, overlaps) == overlap_positions(overlaps),
        !is_tether && overlap_positions(overlaps).len() <= p.piercing_left + 1 ==> planned_hits(p, is_tether, overlaps)
            == overlap_positions(overlaps),
{
    lemma_overlap_positions(overlaps);
}

/// Collects, for one projectile, the positions of the horrors it strikes this
/// frame from the list of horrors its hitbox overlaps.
pub fn plan_projectile_hits(projectile: &AutomaticProjectile, is_tether: bool, overlaps: &Vec<bool>) -> (hits: Vec<usize>)
    ensures
        hits@.len() == planned_hits(*projectile, is_tether, overlaps@).len(),
        forall|k: int| 0 <= k < hits@.len() ==> hits@[k] as int == #[trigger] planned_hits(*projectile, is_tether,
            overlaps@)[k],
{
    let mut hits: Vec<usize> = Vec::new();
    let mut piercing_left = projectile.piercing_left;
    let mut consumed = false;
    let mut i: usize = 0;
    let ghost budget = hit_budget(*projectile, is_tether);
    while i < overlaps.len()
        invariant
            i <= overlaps.len(),
            budget == hit_budget(*projectile, is_tether),
            !consumed ==> hits@.len() == overlap_positions(overlaps@.take(i as int)).len(),
            !consumed ==> (budget < 0 || hits@.len() < budget),
            consumed ==> budget >= 0 && hits@.len() == budget,
            consumed ==> hits@.len() <= overlap_positions(overlaps@.take(i as int)).len(),
            !consumed && !is_tether && !projectile.can_bounce() ==> piercing_left + hits@.len() == projectile.piercing_left,
            forall|k: int| 0 <= k < hits@.len() ==> hits@[k] as int == #[trigger] overlap_positions(
                overlaps@.take(i as int))[k],
        decreases overlaps.len() - i,
    {
        let ghost prev = overlaps@.take(i as int);
        assert(overlaps@.take(i + 1).drop_last() =~= prev);
        if !consumed && overlaps[i] {
            hits.push(i);
            if is_tether {
                consumed = true;
            } else if piercing_left > 0 {
                piercing_left = piercing_left - 1;
            } else {
                let no_bounce = match projectile.bounces_left {
                    Some(b) => b == 0,
                    None => true,
                };
                if no_bounce {
                    consumed = true;
                }
            }
        }
        proof {
            lemma_prefix_positions(overlaps@, i as int);
        }
        i = i + 1;
    }
    assert(overlaps@.take(overlaps.len() as int) =~= overlaps@);
    hits
}

/// Positions found in a prefix stay in place when the prefix grows.
proof fn lemma_prefix_positions(overlaps: Seq<bool>, i: int)
    requires
        0 <= i < overlaps.len(),
    ensures
        ({
            let before = overlap_positions(overlaps.take(i));
            let after = overlap_positions(overlaps.take(i + 1));
            &&& after.len() == before.len() + if overlaps[i] { 1int } else { 0 }
            &&& forall|k: int| 0 <= k < before.len() ==> after[k] == before[k]
            &&& overlaps[i] ==> after[before.len() as int] == i
        }),
{
    assert(overlaps.take(i + 1).drop_last() =~= overlaps.take(i));
}

/// What happens to a skill projectile when it strikes a horror.
#[derive(Debug, Clone, Copy, PartialEq, Eq, Structural)]
pub enum SkillHitOutcome {
    /// It pierces the horror and flies on.
    Pierce,
    /// It spends a bounce: a new projectile may chain to a nearby horror and
    /// this one is removed.
    ChainAndRemove,
    /// It is spent and removed.
    Remove,
}

/// The integer state of a projectile fired by a skill.
#[derive(Debug, Clone, Copy, PartialEq, Eq, Structural)]
pub struct SkillProjectile {
    pub skill_id: SkillId,
    pub piercing_left: u32,
    pub bounces_left: u32,
}

/// A skill projectile and the outcome after it strikes a horror: a pierce
/// is spent first, then a bounce (which chains and removes it); with neither
/// left it is removed.
pub open spec fn strike_result(p: SkillProjectile) -> (SkillProjectile, SkillHitOutcome) {
    if p.piercing_left > 0 {
        (SkillProjectile { piercing_left: (p.piercing_left - 1) as u32, ..p }, SkillHitOutcome::Pierce)
    } else if p.bounces_left > 0 {
        (SkillProjectile { bounces_left: (p.bounces_left - 1) as u32, ..p }, SkillHitOutcome::ChainAndRemove)
    } else {
        (p, SkillHitOutcome::Remove)
    }
}

/// A skill projectile's strike spends exactly one of its pierces or bounces,
/// pierces first: it pierces while it has pierces, chains on its first
/// bounce once those are gone, and is removed (unchanged) only when it has
/// neither.
pub proof fn strike_spends_one(p: SkillProjectile)
    ensures
        ({
            let (q, outcome) = strike_result(p);
            &&& (outcome == SkillHitOutcome::Pierce) == (p.piercing_left > 0)
            &&& (outcome == SkillHitOutcome::Remove) == (p.piercing_left == 0 && p.bounces_left == 0)
            &&& outcome != SkillHitOutcome::Remove ==> q.piercing_left + q.bounces_left == p.piercing_left
                + p.bounces_left - 1
            &&& outcome == SkillHitOutcome::ChainAndRemove ==> q.bounces_left == p.bounces_left - 1
            &&& q.bounces_left <= p.bounces_left && q.piercing_left <= p.piercing_left
            &&& q.skill_id == p.skill_id
        }),
{
}

/// A projectile turns back at the screen's edge only when it heads out, has
/// a bounce left and has not bounced this frame yet; it is removed for
/// leaving only when its bounces are spent and it is outside; a projectile
/// that never bounces never does either.
pub proof fn screen_bounces_need_bounces(p: AutomaticProjectile, outside: bool, heading_out: bool)
    ensures
        ({
            let r = screen_bounce_result(p, outside, heading_out);
            &&& r is Bounce ==> heading_out && p.can_bounce() && !p.has_bounced_this_frame
            &&& r matches ScreenBounce::Bounce { last } ==> last == (p.bounces_left == Some(1u32))
            &&& r is Remove ==> outside && p.bounces_left == Some(0u32) && !p.has_bounced_this_frame
            &&& p.bounces_left is None ==> r == ScreenBounce::CarryOn
            &&& heading_out && p.can_bounce() && !p.has_bounced_this_frame ==> r is Bounce
        }),
{
}

impl SkillProjectile {
    /// Whether a projectile that has already struck `already_hit` horrors has
    /// outlived any plausible use and should be removed.
    pub fn exhausted(&self, already_hit: usize) -> (r: bool)
        requires
            self.piercing_left + self.bounces_left + 5 <= u32::MAX,
        ensures
            r == (already_hit > self.piercing_left + self.bounces_left + 5),
    {
        already_hit > (self.piercing_left + self.bounces_left + 5) as usize
    }

    /// Updates the projectile after it struck a horror: piercing is spent
    /// first, then bounces.
    pub fn strike(&mut self) -> (outcome: SkillHitOutcome)
        ensures
            (*final(self), outcome) == strike_result(*old(self)),
            old(self).piercing_left > 0 ==> outcome == SkillHitOutcome::Pierce
                && final(self).piercing_left == old(self).piercing_left - 1
                && final(self).bounces_left == old(self).bounces_left,
            old(self).piercing_left == 0 && old(self).bounces_left > 0 ==> outcome
                == SkillHitOutcome::ChainAndRemove && final(self).piercing_left == 0
                && final(self).bounces_left == old(self).bounces_left - 1,
            old(self).piercing_left == 0 && old(self).bounces_left == 0 ==> outcome == SkillHitOutcome::Remove
                && *final(self) == *old(self),
            final(self).skill_id == old(self).skill_id,
    {
        if self.piercing_left > 0 {
            self.piercing_left = self.piercing_left - 1;
            SkillHitOutcome::Pierce
        } else if self.bounces_left > 0 {
            self.bounces_left = self.bounces_left - 1;
            SkillHitOutcome::ChainAndRemove
        } else {
            SkillHitOutcome::Remove
        }
    }

    /// The projectile meets the horror `horror` (the engine's identifier for
    /// it), whose health is `horror_health`. A horror it already struck is
    /// left alone and the result is `None`. Any other loses `damage` health,
    /// joins `already_hit`, and the projectile spends a pierce or a bounce as
    /// `strike` does; the result is that outcome.
    pub fn hit_horror(
        &mut self,
        already_hit: &mut Vec<u64>,
        horror: u64,
        horror_health: &mut i32,
        damage: i32,
    ) -> (outcome: Option<SkillHitOutcome>)
        requires
            !old(already_hit)@.contains(horror) ==> i32::MIN <= *old(horror_health) - damage <= i32::MAX,
        ensures
            old(already_hit)@.contains(horror) ==> {
                &&& outcome.is_none()
                &&& *final(self) == *old(self)
                &&& final(already_hit)@ == old(already_hit)@
                &&& *final(horror_health) == *old(horror_health)
            },
            !old(already_hit)@.contains(horror) ==> {
                &&& *final(horror_health) == *old(horror_health) - damage
                &&& final(already_hit)@ == old(already_hit)@.push(horror)
                &&& outcome == Some(strike_result(*old(self)).1)
                &&& *final(self) == strike_result(*old(self)).0
            },
    {
        let mut i: usize = 0;
        while i < already_hit.len()
            invariant
                i <= already_hit@.len(),
                forall|j: int| 0 <= j < i ==> already_hit@[j] != horror,
            decreases already_hit@.len() - i,
        {
            if already_hit[i] == horror {
                return None;
            }
            i = i + 1;
        }
        *horror_health = *horror_health - damage;
        already_hit.push(horror);
        Some(self.strike())
    }
}

} // verus!

verus! {

/// How a repositioning tether moves a latched horror.
#[derive(Debug, Clone, Copy, PartialEq, Eq, Structural)]
pub enum RepositioningTetherMode {
    Pull,
    Push,
    Alternate,
}

impl RepositioningTetherMode {
    /// Tethers pull unless told otherwise.
    pub fn default() -> (m: Self)
        ensures
            m == RepositioningTetherMode::Pull,
    {
        RepositioningTetherMode::Pull
    }
}

/// The effect a tether applies on its reactivation after latching: an
/// alternating tether begins with a pull, the others keep their mode.
pub fn tether_mode_after_hit(mode: RepositioningTetherMode) -> (next: RepositioningTetherMode)
    ensures
        mode == RepositioningTetherMode::Alternate ==> next == RepositioningTetherMode::Pull,
        mode != RepositioningTetherMode::Alternate ==> next == mode,
{
    match mode {
        RepositioningTetherMode::Alternate => RepositioningTetherMode::Pull,
        other => other,
    }
}

} // verus!
