use vstd::prelude::*;

verus! {

/// The kinds of horror that roam the abyss.
#[derive(Debug, Clone, Copy, PartialEq, Eq, Hash, Structural)]
pub enum HorrorType {
    SkitteringShadowling,
    FloatingEyeball,
    AmorphousFleshbeast,
    VoidBlinker,
    FleshWeaver,
    CrawlingTorment,
    FrenziedBehemoth,
    MindLeech,
}

/// The horror a spawn produces in the given wave: waves 1 and 2 pick by a
/// 70/30 coin between shadowlings and mind leeches; later waves pick by a
/// roll below 100 from a wave-dependent table, the widest one from wave 7 on
/// (and for wave 0).
pub open spec fn horror_for_roll(wave: u32, coin: bool, roll: u32) -> HorrorType {
    if 1 <= wave <= 2 {
        if coin { HorrorType::SkitteringShadowling } else { HorrorType::MindLeech }
    } else if 3 <= wave <= 4 {
        if roll < 30 { HorrorType::SkitteringShadowling }
        else if roll < 60 { HorrorType::MindLeech }
        else if roll < 80 { HorrorType::FloatingEyeball }
        else { HorrorType::VoidBlinker }
    } else if 5 <= wave <= 6 {
        if roll < 15 { HorrorType::SkitteringShadowling }
        else if roll < 30 { HorrorType::MindLeech }
        else if roll < 50 { HorrorType::FloatingEyeball }
        else if roll < 70 { HorrorType::VoidBlinker }
        else { HorrorType::FleshWeaver }
    } else {
        if roll < 10 { HorrorType::SkitteringShadowling }
        else if roll < 25 { HorrorType::MindLeech }
        else if roll < 40 { HorrorType::FloatingEyeball }
        else if roll < 55 { HorrorType::VoidBlinker }
        else if roll < 70 { HorrorType::FleshWeaver }
        else if roll < 85 { HorrorType::FrenziedBehemoth }
        else { HorrorType::AmorphousFleshbeast }
    }
}

/// The horror for a wave given the outcome of the coin (waves 1 and 2) or of
/// the roll (other waves).
pub fn horror_type_for_roll(wave: u32, coin: bool, roll: u32) -> (t: HorrorType)
    ensures
        t == horror_for_roll(wave, coin, roll),
{
    if wave >= 1 && wave <= 2 {
        if coin { HorrorType::SkitteringShadowling } else { HorrorType::MindLeech }
    } else if wave >= 3 && wave <= 4 {
        if roll < 30 {
            HorrorType::SkitteringShadowling
        } else if roll < 60 {
            HorrorType::MindLeech
        } else if roll < 80 {
            HorrorType::FloatingEyeball
        } else {
            HorrorType::VoidBlinker
        }
    } else if wave >= 5 && wave <= 6 {
        if roll < 15 {
            HorrorType::SkitteringShadowling
        } else if roll < 30 {
            HorrorType::MindLeech
        } else if roll < 50 {
            HorrorType::FloatingEyeball
        } else if roll < 70 {
            HorrorType::VoidBlinker
        } else {
            HorrorType::FleshWeaver
        }
    } else {
        if roll < 10 {
            HorrorType::SkitteringShadowling
        } else if roll < 25 {
            HorrorType::MindLeech
        } else if roll < 40 {
            HorrorType::FloatingEyeball
        } else if roll < 55 {
            HorrorType::VoidBlinker
        } else if roll < 70 {
            HorrorType::FleshWeaver
        } else if roll < 85 {
            HorrorType::FrenziedBehemoth
        } else {
            HorrorType::AmorphousFleshbeast
        }
    }
}

/// The spawn tables as shares of the hundred rolls. In waves 1 and 2 the
/// coin alone decides between shadowlings and mind leeches. In waves 3 and 4
/// rolls 0-29 give shadowlings, 30-59 mind leeches, 60-79 floating eyeballs
/// and 80-99 void blinkers. In waves 5 and 6: 0-14 shadowlings, 15-29 mind
/// leeches, 30-49 floating eyeballs, 50-69 void blinkers, 70-99 flesh
/// weavers. From wave 7 on (and in wave 0): 0-9 shadowlings, 10-24 mind
/// leeches, 25-39 floating eyeballs, 40-54 void blinkers, 55-69 flesh weavers,
/// 70-84 frenzied behemoths, 85-99 amorphous fleshbeasts. So every kind of a
/// wave's table spawns on some roll, and no other kind does.
pub proof fn spawn_table_shares(wave: u32, coin: bool, roll: u32)
    requires
        roll < 100,
    ensures
        ({
            let t = horror_for_roll(wave, coin, roll);
            &&& 1 <= wave <= 2 ==> (t == HorrorType::SkitteringShadowling) == coin && (t == HorrorType::MindLeech)
                == !coin
            &&& 3 <= wave <= 4 ==> {
                &&& (t == HorrorType::SkitteringShadowling) == (roll < 30)
                &&& (t == HorrorType::MindLeech) == (30 <= roll < 60)
                &&& (t == HorrorType::FloatingEyeball) == (60 <= roll < 80)
                &&& (t == HorrorType::VoidBlinker) == (80 <= roll)
            }
            &&& 5 <= wave <= 6 ==> {
                &&& (t == HorrorType::SkitteringShadowling) == (roll < 15)
                &&& (t == HorrorType::MindLeech) == (15 <= roll < 30)
                &&& (t == HorrorType::FloatingEyeball) == (30 <= roll < 50)
                &&& (t == HorrorType::VoidBlinker) == (50 <= roll < 70)
                &&& (t == HorrorType::FleshWeaver) == (70 <= roll)
            }
            &&& (wave == 0 || wave >= 7) ==> {
                &&& (t == HorrorType::SkitteringShadowling) == (roll < 10)
                &&& (t == HorrorType::MindLeech) == (10 <= roll < 25)
                &&& (t == HorrorType::FloatingEyeball) == (25 <= roll < 40)
                &&& (t == HorrorType::VoidBlinker) == (40 <= roll < 55)
                &&& (t == HorrorType::FleshWeaver) == (55 <= roll < 70)
                &&& (t == HorrorType::FrenziedBehemoth) == (70 <= roll < 85)
                &&& (t == HorrorType::AmorphousFleshbeast) == (85 <= roll)
            }
        }),
{
}

/// Picks the kind of the next horror for the wave at random.
pub fn choose_horror_type(wave: u32) -> (t: HorrorType)
    ensures
        exists|coin: bool, roll: u32| roll < 100 && t == horror_for_roll(wave, coin, roll),
{
    if wave >= 1 && wave <= 2 {
        let coin = crate::random::roll_ratio(7, 10);
        let t = horror_type_for_roll(wave, coin, 0);
        assert(horror_for_roll(wave, coin, 0u32) == t);
        t
    } else {
        let roll = crate::random::roll_below(100);
        let t = horror_type_for_roll(wave, true, roll);
        assert(horror_for_roll(wave, true, roll) == t);
        t
    }
}

/// Whether a horror of this kind may spawn as an elite: minions, summoners,
/// mind leeches and behemoths never do.
pub open spec fn elite_eligible(t: HorrorType) -> bool {
    t != HorrorType::CrawlingTorment && t != HorrorType::FleshWeaver && t != HorrorType::MindLeech
        && t != HorrorType::FrenziedBehemoth
}

/// Whether a horror of kind `t` spawns as an elite once the one-in-twenty
/// draw has come out as `lucky`.
pub open spec fn elite_for(t: HorrorType, lucky: bool) -> bool {
    lucky && elite_eligible(t)
}

/// Only a lucky draw makes an elite, and then exactly for shadowlings,
/// floating eyeballs, fleshbeasts and void blinkers: crawling torments,
/// flesh weavers, mind leeches and behemoths never spawn elite.
pub proof fn elites_are_lucky_fighters(t: HorrorType)
    ensures
        !elite_for(t, false),
        elite_for(t, true) <==> (t == HorrorType::SkitteringShadowling || t == HorrorType::FloatingEyeball || t
            == HorrorType::AmorphousFleshbeast || t == HorrorType::VoidBlinker),
{
}

/// Decides from the outcome of the draw whether a horror of kind `t` spawns
/// as an elite: it does when the draw was lucky and the kind is eligible.
pub fn elite_for_roll(t: HorrorType, lucky: bool) -> (elite: bool)
    ensures
        elite == elite_for(t, lucky),
{
    lucky && t != HorrorType::CrawlingTorment && t != HorrorType::FleshWeaver && t != HorrorType::MindLeech && t
        != HorrorType::FrenziedBehemoth
}

/// Decides at random (one chance in twenty) whether the horror spawns as an
/// elite; only eligible kinds can.
pub fn roll_elite(t: HorrorType) -> (elite: bool)
    ensures
        exists|lucky: bool| elite == elite_for(t, lucky),
        elite ==> elite_eligible(t),
{
    let lucky = crate::random::roll_ratio(1, 20);
    elite_for_roll(t, lucky)
}

/// Whether a spawn happens this frame: the spawn timer fired and the horror
/// cap is not reached.
pub fn should_spawn(timer_fired: bool, horror_count: usize, max_horrors: u32) -> (r: bool)
    ensures
        r == (timer_fired && horror_count < max_horrors),
{
    timer_fired && horror_count < max_horrors as usize
}

/// Score after slaying a horror worth `xp_value` echoes: half its worth,
/// rounded down.
pub fn score_after_kill(score: u32, xp_value: u32) -> (r: u32)
    requires
        score + xp_value / 2 <= u32::MAX,
    ensures
        r == score + xp_value / 2,
{
    score + xp_value / 2
}

/// Most minions a Flesh Weaver summons at once.
pub const SUMMONER_MINIONS_TO_SPAWN: u32 = 2;

/// Most minions a Flesh Weaver keeps alive.
pub const SUMMONER_MAX_ACTIVE_MINIONS: u32 = 3;

/// How many minions a Flesh Weaver summons when its timer fires: up to two,
/// without exceeding its limit of live minions.
pub fn minions_to_summon(timer_fired: bool, active_minions: usize, max_minions: u32) -> (n: u32)
    ensures
        !timer_fired || active_minions >= max_minions ==> n == 0,
        timer_fired && active_minions < max_minions ==> n == if max_minions - active_minions
            < SUMMONER_MINIONS_TO_SPAWN { max_minions - active_minions } else { SUMMONER_MINIONS_TO_SPAWN as int },
        active_minions + n <= max_minions || n == 0,
{
    if !timer_fired || active_minions >= max_minions as usize {
        return 0;
    }
    let room = (max_minions as usize - active_minions) as u32;
    if room < SUMMONER_MINIONS_TO_SPAWN {
        room
    } else {
        SUMMONER_MINIONS_TO_SPAWN
    }
}

/// How a ranged attacker behaves.
#[derive(Debug, Clone, Copy, PartialEq, Eq, Structural)]
pub enum RangedAttackerState {
    Idle,
    Attacking,
    Repositioning,
    Kiting,
}

/// Where the survivor stands relative to a ranged attacker's distances, as
/// the engine measured it this frame.
#[derive(Debug, Clone, Copy, PartialEq, Eq, Structural)]
pub struct RangeReading {
    /// Closer than the minimum engagement distance.
    pub too_close: bool,
    /// Within shooting range.
    pub in_range: bool,
    /// Beyond 110% of the shooting range.
    pub beyond_leash: bool,
    /// Beyond 120% of the minimum engagement distance.
    pub clear_of_kiting: bool,
}

/// The ranged attacker's next state and whether it fires this frame.
pub open spec fn ranged_step(s: RangedAttackerState, r: RangeReading, fire_timer_fired: bool,
    reposition_over: bool) -> (RangedAttackerState, bool)
{
    match s {
        RangedAttackerState::Idle => if r.in_range && !r.too_close {
            (RangedAttackerState::Attacking, false)
        } else if r.too_close {
            (RangedAttackerState::Kiting, false)
        } else {
            (RangedAttackerState::Idle, false)
        },
        RangedAttackerState::Attacking => if r.too_close {
            (RangedAttackerState::Kiting, false)
        } else if r.beyond_leash {
            (RangedAttackerState::Idle, false)
        } else if fire_timer_fired {
            (RangedAttackerState::Repositioning, true)
        } else {
            (RangedAttackerState::Attacking, false)
        },
        RangedAttackerState::Repositioning => if reposition_over {
            (RangedAttackerState::Idle, false)
        } else {
            (RangedAttackerState::Repositioning, false)
        },
        RangedAttackerState::Kiting => {
            let next = if r.clear_of_kiting && r.in_range {
                RangedAttackerState::Attacking
            } else if !r.in_range {
                RangedAttackerState::Idle
            } else {
                RangedAttackerState::Kiting
            };
            (next, r.in_range && fire_timer_fired)
        },
    }
}

/// A ranged attacker fires only when its fire timer fired, only while
/// attacking or kiting, and never at a survivor out of its range: attacking,
/// it fires only when the survivor is neither too close nor beyond its leash,
/// and then goes repositioning; kiting, it fires only within range. A
/// survivor beyond the leash sends an attacking horror back to idle without a
/// shot; a survivor too close makes an idle or attacking horror back off
/// without a shot; repositioning ends exactly when it is over. With a reading
/// where beyond the leash means out of range, it never fires at a survivor
/// beyond its leash.
pub proof fn ranged_attacker_fires_in_range(s: RangedAttackerState, r: RangeReading, fire_timer_fired: bool,
    reposition_over: bool)
    ensures
        ({
            let (next, fires) = ranged_step(s, r, fire_timer_fired, reposition_over);
            &&& fires ==> fire_timer_fired
            &&& fires ==> (s is Attacking || s is Kiting)
            &&& fires && s is Attacking ==> !r.too_close && !r.beyond_leash && next is Repositioning
            &&& fires && s is Kiting ==> r.in_range
            &&& s is Attacking && !r.too_close && r.beyond_leash ==> next is Idle && !fires
            &&& (s is Idle || s is Attacking) && r.too_close ==> next is Kiting && !fires
            &&& s is Repositioning ==> !fires && (next is Idle) == reposition_over && (next is Repositioning)
                == !reposition_over
            &&& (r.beyond_leash ==> !r.in_range) ==> (fires ==> !r.beyond_leash)
        }),
{
}

/// Steps a ranged attacker: it engages in range, backs off when crowded,
/// gives up beyond its leash, repositions after each shot, and keeps shooting
/// while backing off within range. `fire_timer_fired` is whether its fire
/// timer completed this frame (the engine ticks it only while attacking, or
/// kiting in range); `reposition_over` whether repositioning timed out or
/// reached its target. The result says whether it fires.
pub fn step_ranged_attacker(state: &mut RangedAttackerState, reading: &RangeReading, fire_timer_fired: bool,
    reposition_over: bool) -> (fires: bool)
    ensures
        (*final(state), fires) == ranged_step(*old(state), *reading, fire_timer_fired, reposition_over),
{
    match *state {
        RangedAttackerState::Idle => {
            if reading.in_range && !reading.too_close {
                *state = RangedAttackerState::Attacking;
            } else if reading.too_close {
                *state = RangedAttackerState::Kiting;
            }
            false
        },
        RangedAttackerState::Attacking => {
            if reading.too_close {
                *state = RangedAttackerState::Kiting;
                false
            } else if reading.beyond_leash {
                *state = RangedAttackerState::Idle;
                false
            } else if fire_timer_fired {
                *state = RangedAttackerState::Repositioning;
                true
            } else {
                false
            }
        },
        RangedAttackerState::Repositioning => {
            if reposition_over {
                *state = RangedAttackerState::Idle;
            }
            false
        },
        RangedAttackerState::Kiting => {
            if reading.clear_of_kiting && reading.in_range {
                *state = RangedAttackerState::Attacking;
            } else if !reading.in_range {
                *state = RangedAttackerState::Idle;
            }
            reading.in_range && fire_timer_fired
        },
    }
}

/// The phases of a Void Blinker's teleport.
#[derive(Debug, Clone, Copy, PartialEq, Eq, Structural)]
pub enum VoidBlinkerState {
    Chasing,
    PhasingOut,
    PhasedOut,
    PhasingIn,
    Cooldown,
}

/// The phase after the current one, when its timer is done.
pub open spec fn blinker_next(s: VoidBlinkerState) -> VoidBlinkerState {
    match s {
        VoidBlinkerState::Chasing => VoidBlinkerState::PhasingOut,
        VoidBlinkerState::PhasingOut => VoidBlinkerState::PhasedOut,
        VoidBlinkerState::PhasedOut => VoidBlinkerState::PhasingIn,
        VoidBlinkerState::PhasingIn => VoidBlinkerState::Cooldown,
        VoidBlinkerState::Cooldown => VoidBlinkerState::Chasing,
    }
}

/// Advances a Void Blinker to its next phase when the phase timer is done
/// (the engine then restarts the timer for the new phase, teleports on
/// leaving the phased-out phase, and fades the sprite). The result says
/// whether the phase changed.
pub fn step_void_blinker(state: &mut VoidBlinkerState, phase_timer_done: bool) -> (changed: bool)
    ensures
        changed == phase_timer_done,
        *final(state) == if phase_timer_done { blinker_next(*old(state)) } else { *old(state) },
{
    if phase_timer_done {
        *state = match *state {
            VoidBlinkerState::Chasing => VoidBlinkerState::PhasingOut,
            VoidBlinkerState::PhasingOut => VoidBlinkerState::PhasedOut,
            VoidBlinkerState::PhasedOut => VoidBlinkerState::PhasingIn,
            VoidBlinkerState::PhasingIn => VoidBlinkerState::Cooldown,
            VoidBlinkerState::Cooldown => VoidBlinkerState::Chasing,
        };
    }
    phase_timer_done
}

/// A Void Blinker's teleport is a cycle: five completed phases bring it back
/// to the phase it started in.
pub proof fn void_blinker_cycle(s: VoidBlinkerState)
    ensures
        blinker_next(blinker_next(blinker_next(blinker_next(blinker_next(s))))) == s,
{
}

/// How a Frenzied Behemoth behaves.
#[derive(Debug, Clone, Copy, PartialEq, Eq, Structural)]
pub enum FrenziedBehemothState {
    Roaming,
    Telegraphing,
    Charging,
    Cooldown,
}

/// The behemoth's next state. It starts telegraphing a charge when its
/// cooldown is over and the survivor is within charge distance (closer than
/// detection range, farther than the minimum), charges when the telegraph
/// ends, cools down after the charge, then roams again.
pub open spec fn behemoth_next(s: FrenziedBehemothState, cooldown_over: bool, in_charge_window: bool,
    telegraph_over: bool, charge_over: bool) -> FrenziedBehemothState
{
    match s {
        FrenziedBehemothState::Roaming => if cooldown_over && in_charge_window {
            FrenziedBehemothState::Telegraphing
        } else {
            s
        },
        FrenziedBehemothState::Telegraphing => if telegraph_over { FrenziedBehemothState::Charging } else { s },
        FrenziedBehemothState::Charging => if charge_over { FrenziedBehemothState::Cooldown } else { s },
        FrenziedBehemothState::Cooldown => if cooldown_over { FrenziedBehemothState::Roaming } else { s },
    }
}

/// Steps a Frenzied Behemoth (the engine ticks the timers, aims and colors
/// the sprite for the new state).
pub fn step_behemoth(state: &mut FrenziedBehemothState, cooldown_over: bool, in_charge_window: bool,
    telegraph_over: bool, charge_over: bool)
    ensures
        *final(state) == behemoth_next(*old(state), cooldown_over, in_charge_window, telegraph_over, charge_over),
{
    match *state {
        FrenziedBehemothState::Roaming => {
            if cooldown_over && in_charge_window {
                *state = FrenziedBehemothState::Telegraphing;
            }
        },
        FrenziedBehemothState::Telegraphing => {
            if telegraph_over {
                *state = FrenziedBehemothState::Charging;
            }
        },
        FrenziedBehemothState::Charging => {
            if charge_over {
                *state = FrenziedBehemothState::Cooldown;
            }
        },
        FrenziedBehemothState::Cooldown => {
            if cooldown_over {
                *state = FrenziedBehemothState::Roaming;
            }
        },
    }
}

/// A behemoth only charges after telegraphing: the charging state is reached
/// from telegraphing or kept, never entered from roaming or cooldown.
pub proof fn behemoth_telegraphs_before_charging(s: FrenziedBehemothState, cooldown_over: bool,
    in_charge_window: bool, telegraph_over: bool, charge_over: bool)
    ensures
        behemoth_next(s, cooldown_over, in_charge_window, telegraph_over, charge_over)
            == FrenziedBehemothState::Charging ==> s == FrenziedBehemothState::Telegraphing || s
            == FrenziedBehemothState::Charging,
{
}

} // verus!
