use vstd::prelude::*;

verus! {

/// Identifier of a relic (item) definition.
#[derive(Debug, Clone, Copy, PartialEq, Eq, Hash, Structural)]
pub struct ItemId(pub u32);

/// Identifier of an automatic weapon definition.
#[derive(Debug, Clone, Copy, PartialEq, Eq, Hash, Structural)]
pub struct AutomaticWeaponId(pub u32);

} // verus!

verus! {

/// A timed buff that an on-kill relic grants the survivor. `F` is the type of
/// the real-valued tuning (rates and durations).
#[derive(Debug, Clone, Copy, PartialEq)]
pub enum SurvivorTemporaryBuff<F> {
    HealthRegen { rate: F, duration_secs: F },
}

/// What a relic does. `F` is the type of the real-valued tuning (chances,
/// radii, multipliers) and `C` the type of colors; the rules here read only
/// the integer fields.
#[derive(Debug, Clone, Copy, PartialEq)]
pub enum ItemEffect<F, C> {
    PassiveStatBoost {
        max_health_increase: Option<i32>,
        speed_multiplier: Option<F>,
        damage_increase: Option<i32>,
        xp_gain_multiplier: Option<F>,
        pickup_radius_increase: Option<F>,
        auto_weapon_projectile_speed_multiplier_increase: Option<F>,
    },
    OnAutomaticProjectileHitExplode { chance: F, explosion_damage: i32, explosion_radius: F, explosion_color: C },
    OnSurvivorHitRetaliate { chance: F, retaliation_damage: i32, retaliation_radius: F, retaliation_color: C },
    OnHorrorKillTrigger { chance: F, effect: SurvivorTemporaryBuff<F> },
    GrantSpecificSkill { skill_id: crate::skills::SkillId },
    ActivateCircleOfWarding { base_damage: i32, base_radius: F, base_tick_interval: F },
    ActivateSwarmOfNightmares { num_larvae: u32, base_damage: i32, base_orbit_radius: F, base_rotation_speed: F },
}

/// A relic: its identity, texts, effects and icon.
pub struct ItemDefinition<F, C> {
    pub id: ItemId,
    pub name: String,
    pub description: String,
    pub effects: Vec<ItemEffect<F, C>>,
    pub icon_path: String,
}

/// Every relic the game knows.
pub struct ItemLibrary<F, C> {
    pub items: Vec<ItemDefinition<F, C>>,
}

/// Position of the first entry of `ids` equal to `id`, if any.
pub open spec fn first_position_of<T>(ids: Seq<T>, id: T) -> Option<int>
    decreases ids.len(),
{
    if ids.len() == 0 {
        None
    } else {
        match first_position_of(ids.drop_last(), id) {
            Some(k) => Some(k),
            None => if ids.last() == id { Some(ids.len() - 1) } else { None },
        }
    }
}

/// Scanning one more entry either finds the id there or leaves it unfound.
pub(crate) proof fn lemma_first_position_step<T>(ids: Seq<T>, i: int, id: T)
    requires
        0 <= i < ids.len(),
        first_position_of(ids.take(i), id).is_none(),
    ensures
        ids[i] == id ==> first_position_of(ids.take(i + 1), id) == Some(i),
        ids[i] != id ==> first_position_of(ids.take(i + 1), id).is_none(),
{
    assert(ids.take(i + 1).drop_last() =~= ids.take(i));
}

/// A first position found in a prefix is the first position in the whole.
pub(crate) proof fn lemma_first_position_extend<T>(ids: Seq<T>, j: int, id: T)
    requires
        0 <= j <= ids.len(),
        first_position_of(ids.take(j), id).is_some(),
    ensures
        first_position_of(ids, id) == first_position_of(ids.take(j), id),
    decreases ids.len(),
{
    if j == ids.len() {
        assert(ids.take(j) =~= ids);
    } else {
        assert(ids.drop_last().take(j) =~= ids.take(j));
        lemma_first_position_extend(ids.drop_last(), j, id);
    }
}

/// No position exactly when the id is absent; otherwise the position of its
/// first occurrence.
pub(crate) proof fn lemma_first_position_none<T>(ids: Seq<T>, id: T)
    ensures
        first_position_of(ids, id).is_none() <==> !ids.contains(id),
        first_position_of(ids, id) matches Some(k) ==> 0 <= k < ids.len() && ids[k] == id
            && forall|j: int| 0 <= j < k ==> ids[j] != id,
    decreases ids.len(),
{
    if ids.len() > 0 {
        let front = ids.drop_last();
        lemma_first_position_none(front, id);
        match first_position_of(front, id) {
            Some(k) => {
                assert(ids[k] == front[k]);
                assert forall|j: int| 0 <= j < k implies ids[j] != id by {
                    assert(ids[j] == front[j]);
                }
                assert(ids.contains(id));
            },
            None => {
                assert forall|j: int| 0 <= j < ids.len() - 1 implies ids[j] != id by {
                    assert(ids[j] == front[j]);
                    if ids[j] == id {
                        assert(front.contains(id));
                    }
                }
                if ids.last() == id {
                    assert(ids.contains(id)) by { assert(ids[ids.len() - 1] == id); }
                } else {
                    if ids.contains(id) {
                        let j = choose|j: int| 0 <= j < ids.len() && ids[j] == id;
                        assert(false);
                    }
                }
            },
        }
    }
}

impl<F, C> ItemLibrary<F, C> {
    /// The ids of the relics, in library order.
    pub open spec fn ids(&self) -> Seq<ItemId> {
        self.items@.map_values(|d: ItemDefinition<F, C>| d.id)
    }

    /// An empty library.
    pub fn default() -> (l: Self)
        ensures
            l.items@.len() == 0,
    {
        ItemLibrary { items: Vec::new() }
    }

    /// The first relic with the given id, if the library has one.
    pub fn get_item_definition(&self, id: ItemId) -> (r: Option<&ItemDefinition<F, C>>)
        ensures
            r.is_none() <==> !self.ids().contains(id),
            r matches Some(d) ==> d.id == id && (first_position_of(self.ids(), id) matches Some(k)
                && *d == self.items@[k] && forall|j: int| 0 <= j < k ==> self.items@[j].id != id),
    {
        let mut i: usize = 0;
        while i < self.items.len()
            invariant
                i <= self.items@.len(),
                first_position_of(self.ids().take(i as int), id).is_none(),
            decreases self.items@.len() - i,
        {
            proof {
                lemma_first_position_step(self.ids(), i as int, id);
            }
            if self.items[i].id == id {
                proof {
                    lemma_first_position_extend(self.ids(), i + 1, id);
                    lemma_first_position_none(self.ids(), id);
                    assert forall|j: int| 0 <= j < i implies self.items@[j].id != id by {
                        assert(self.ids()[j] == self.items@[j].id);
                    }
                }
                return Some(&self.items[i]);
            }
            i = i + 1;
        }
        assert(self.ids().take(i as int) =~= self.ids());
        proof {
            lemma_first_position_none(self.ids(), id);
        }
        None
    }
}

/// An automatic weapon: identity, name and attack parameters `A`, which the
/// engine interprets.
pub struct AutomaticWeaponDefinition<A> {
    pub id: AutomaticWeaponId,
    pub name: String,
    pub attack_data: A,
}

/// Every automatic weapon the game knows.
pub struct AutomaticWeaponLibrary<A> {
    pub weapons: Vec<AutomaticWeaponDefinition<A>>,
}

impl<A> AutomaticWeaponLibrary<A> {
    /// The weapon the survivor attacks with: the definition of `id`, or that
    /// of weapon 0 when the library lacks `id`. The library must define one
    /// of the two.
    pub fn weapon_or_default(&self, id: AutomaticWeaponId) -> (r: &AutomaticWeaponDefinition<A>)
        requires
            self.ids().contains(id) || self.ids().contains(AutomaticWeaponId(0)),
        ensures
            self.ids().contains(id) ==> r.id == id && *r == self.weapons@[first_position_of(
                self.ids(),
                id,
            ).unwrap()],
            !self.ids().contains(id) ==> r.id == AutomaticWeaponId(0) && *r == self.weapons@[first_position_of(
                self.ids(),
                AutomaticWeaponId(0),
            ).unwrap()],
    {
        match self.get_weapon_definition(id) {
            Some(def) => def,
            None => match self.get_weapon_definition(AutomaticWeaponId(0)) {
                Some(def) => def,
                None => {
                    proof {
                        assert(false);
                    }
                    &self.weapons[0]
                },
            },
        }
    }
}

impl<A> AutomaticWeaponLibrary<A> {
    /// The ids of the weapons, in library order.
    pub open spec fn ids(&self) -> Seq<AutomaticWeaponId> {
        self.weapons@.map_values(|d: AutomaticWeaponDefinition<A>| d.id)
    }

    /// An empty library.
    pub fn default() -> (l: Self)
        ensures
            l.weapons@.len() == 0,
    {
        AutomaticWeaponLibrary { weapons: Vec::new() }
    }

    /// The first weapon with the given id, if the library has one.
    pub fn get_weapon_definition(&self, id: AutomaticWeaponId) -> (r: Option<&AutomaticWeaponDefinition<A>>)
        ensures
            r.is_none() <==> !self.ids().contains(id),
            r matches Some(d) ==> d.id == id && (first_position_of(self.ids(), id) matches Some(k)
                && *d == self.weapons@[k] && forall|j: int| 0 <= j < k ==> self.weapons@[j].id != id),
    {
        let mut i: usize = 0;
        while i < self.weapons.len()
            invariant
                i <= self.weapons@.len(),
                first_position_of(self.ids().take(i as int), id).is_none(),
            decreases self.weapons@.len() - i,
        {
            proof {
                lemma_first_position_step(self.ids(), i as int, id);
            }
            if self.weapons[i].id == id {
                proof {
                    lemma_first_position_extend(self.ids(), i + 1, id);
                    lemma_first_position_none(self.ids(), id);
                    assert forall|j: int| 0 <= j < i implies self.weapons@[j].id != id by {
                        assert(self.ids()[j] == self.weapons@[j].id);
                    }
                }
                return Some(&self.weapons[i]);
            }
            i = i + 1;
        }
        assert(self.ids().take(i as int) =~= self.ids());
        proof {
            lemma_first_position_none(self.ids(), id);
        }
        None
    }
}

} // verus!
