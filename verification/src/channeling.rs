use vstd::prelude::*;

verus! {

/// Where a survivor's channeled beam weapon stands between two frames.
#[derive(Debug, Clone, Copy, PartialEq, Eq, Structural)]
pub enum BeamChannel {
    /// The survivor has never channeled, or the last beam ended with no
    /// cooldown to wait for.
    Absent,
    /// Ready to channel, no beam out.
    Idle,
    /// A beam is out; `timed` when it ends by itself after its duration.
    Firing { timed: bool },
    /// The beam ended and its cooldown runs.
    CoolingDown,
}

/// What the engine does to the beam this frame.
#[derive(Debug, Clone, Copy, PartialEq, Eq, Structural)]
pub enum BeamAction {
    Nothing,
    SpawnBeam,
    DespawnBeam,
}

/// Where the channel goes once a beam ends: into its cooldown when the
/// weapon has one, else back to having no channel at all.
pub open spec fn beam_after_end(has_cooldown: bool) -> BeamChannel {
    if has_cooldown {
        BeamChannel::CoolingDown
    } else {
        BeamChannel::Absent
    }
}

/// The channel that the frame starts from once a finished cooldown has been
/// cleared.
pub open spec fn beam_cleared(ch: BeamChannel) -> BeamChannel {
    if ch is CoolingDown {
        BeamChannel::Idle
    } else {
        ch
    }
}

/// One frame of an automatic beam. A running cooldown holds everything; a
/// timed beam ends when its duration is over; with no beam out, a beam is
/// spawned whenever the survivor aims somewhere.
pub open spec fn auto_beam_next(
    ch: BeamChannel,
    cooldown_done: bool,
    duration_done: bool,
    aiming: bool,
    has_max_duration: bool,
    has_cooldown: bool,
) -> (BeamChannel, BeamAction) {
    if ch is CoolingDown && !cooldown_done {
        (ch, BeamAction::Nothing)
    } else if ch is Firing {
        if ch->timed && duration_done {
            (beam_after_end(has_cooldown), BeamAction::DespawnBeam)
        } else {
            (ch, BeamAction::Nothing)
        }
    } else if aiming {
        (BeamChannel::Firing { timed: has_max_duration }, BeamAction::SpawnBeam)
    } else {
        (beam_cleared(ch), BeamAction::Nothing)
    }
}

/// One frame of a beam held on the fire button. A running cooldown holds
/// everything; a beam out ends when the button is let go or its duration is
/// over; with no beam out, holding the button while aiming spawns one.
pub open spec fn manual_beam_next(
    ch: BeamChannel,
    pressed: bool,
    cooldown_done: bool,
    duration_done: bool,
    aiming: bool,
    has_max_duration: bool,
    has_cooldown: bool,
) -> (BeamChannel, BeamAction) {
    if ch is CoolingDown && !cooldown_done {
        (ch, BeamAction::Nothing)
    } else if ch is Firing {
        if !pressed || (ch->timed && duration_done) {
            (beam_after_end(has_cooldown), BeamAction::DespawnBeam)
        } else {
            (ch, BeamAction::Nothing)
        }
    } else if pressed && aiming {
        (BeamChannel::Firing { timed: has_max_duration }, BeamAction::SpawnBeam)
    } else {
        (beam_cleared(ch), BeamAction::Nothing)
    }
}

fn after_end(has_cooldown: bool) -> (ch: BeamChannel)
    ensures
        ch == beam_after_end(has_cooldown),
{
    if has_cooldown {
        BeamChannel::CoolingDown
    } else {
        BeamChannel::Absent
    }
}

/// Decides one frame of an automatic channeled beam from the engine's timer
/// flags: whether the cooldown and the beam's duration ran out this frame,
/// whether the survivor aims, and whether the weapon has a maximum duration
/// and a cooldown.
pub fn auto_beam_step(
    ch: BeamChannel,
    cooldown_done: bool,
    duration_done: bool,
    aiming: bool,
    has_max_duration: bool,
    has_cooldown: bool,
) -> (r: (BeamChannel, BeamAction))
    ensures
        r == auto_beam_next(ch, cooldown_done, duration_done, aiming, has_max_duration, has_cooldown),
{
    match ch {
        BeamChannel::CoolingDown if !cooldown_done => (ch, BeamAction::Nothing),
        BeamChannel::Firing { timed } => {
            if timed && duration_done {
                (after_end(has_cooldown), BeamAction::DespawnBeam)
            } else {
                (ch, BeamAction::Nothing)
            }
        },
        BeamChannel::CoolingDown | BeamChannel::Idle => {
            if aiming {
                (BeamChannel::Firing { timed: has_max_duration }, BeamAction::SpawnBeam)
            } else {
                (BeamChannel::Idle, BeamAction::Nothing)
            }
        },
        BeamChannel::Absent => {
            if aiming {
                (BeamChannel::Firing { timed: has_max_duration }, BeamAction::SpawnBeam)
            } else {
                (BeamChannel::Absent, BeamAction::Nothing)
            }
        },
    }
}

/// Decides one frame of a channeled beam held on the fire button, from
/// whether the button is held and the engine's timer flags.
pub fn manual_beam_step(
    ch: BeamChannel,
    pressed: bool,
    cooldown_done: bool,
    duration_done: bool,
    aiming: bool,
    has_max_duration: bool,
    has_cooldown: bool,
) -> (r: (BeamChannel, BeamAction))
    ensures
        r == manual_beam_next(ch, pressed, cooldown_done, duration_done, aiming, has_max_duration, has_cooldown),
{
    match ch {
        BeamChannel::CoolingDown if !cooldown_done => (ch, BeamAction::Nothing),
        BeamChannel::Firing { timed } => {
            if !pressed || (timed && duration_done) {
                (after_end(has_cooldown), BeamAction::DespawnBeam)
            } else {
                (ch, BeamAction::Nothing)
            }
        },
        BeamChannel::CoolingDown | BeamChannel::Idle => {
            if pressed && aiming {
                (BeamChannel::Firing { timed: has_max_duration }, BeamAction::SpawnBeam)
            } else {
                (BeamChannel::Idle, BeamAction::Nothing)
            }
        },
        BeamChannel::Absent => {
            if pressed && aiming {
                (BeamChannel::Firing { timed: has_max_duration }, BeamAction::SpawnBeam)
            } else {
                (BeamChannel::Absent, BeamAction::Nothing)
            }
        },
    }
}

/// The engine keeps a beam out exactly while the channel is firing: this
/// holds after a step whenever it held before it.
pub open spec fn beam_step_keeps_one_beam(ch: BeamChannel, next: BeamChannel, action: BeamAction) -> bool {
    match action {
        BeamAction::SpawnBeam => !(ch is Firing) && next is Firing,
        BeamAction::DespawnBeam => ch is Firing && !(next is Firing),
        BeamAction::Nothing => (ch is Firing) == (next is Firing),
    }
}

/// A beam is spawned only when none is out and despawned only when one is,
/// so at most one beam exists at a time; and while a cooldown runs nothing
/// happens, whichever way the beam is driven.
pub proof fn beam_steps_keep_one_beam(
    ch: BeamChannel,
    pressed: bool,
    cooldown_done: bool,
    duration_done: bool,
    aiming: bool,
    has_max_duration: bool,
    has_cooldown: bool,
)
    ensures
        ({
            let (next, action) = auto_beam_next(
                ch,
                cooldown_done,
                duration_done,
                aiming,
                has_max_duration,
                has_cooldown,
            );
            beam_step_keeps_one_beam(ch, next, action)
        }),
        ({
            let (next, action) = manual_beam_next(
                ch,
                pressed,
                cooldown_done,
                duration_done,
                aiming,
                has_max_duration,
                has_cooldown,
            );
            beam_step_keeps_one_beam(ch, next, action)
        }),
        ch is CoolingDown && !cooldown_done ==> auto_beam_next(
            ch,
            cooldown_done,
            duration_done,
            aiming,
            has_max_duration,
            has_cooldown,
        ) == (ch, BeamAction::Nothing) && manual_beam_next(
            ch,
            pressed,
            cooldown_done,
            duration_done,
            aiming,
            has_max_duration,
            has_cooldown,
        ) == (ch, BeamAction::Nothing),
{
}

/// What a charge-up weapon does this frame.
#[derive(Debug, Clone, Copy, PartialEq, Eq, Structural)]
pub enum ChargeAction {
    /// Nothing to do.
    Wait,
    /// Begin charging at the first charge level.
    StartCharging,
    /// Charging was let go: stop it and restart the fire timer, firing the
    /// shot of the given charge level when that level exists.
    Release(Option<usize>),
}

/// A press starts charging when the weapon is off cooldown, nothing charges
/// yet and the weapon has charge levels; a charge that is no longer held is
/// released at the level it reached.
pub open spec fn charge_shot_next(
    charging: Option<(usize, bool)>,
    just_pressed: bool,
    on_cooldown: bool,
    level_count: usize,
) -> ChargeAction {
    match charging {
        None => if just_pressed && !on_cooldown && level_count > 0 {
            ChargeAction::StartCharging
        } else {
            ChargeAction::Wait
        },
        Some((level, held)) => if held {
            ChargeAction::Wait
        } else if level < level_count {
            ChargeAction::Release(Some(level))
        } else {
            ChargeAction::Release(None)
        },
    }
}

/// A charge starts only on a press while the weapon is off cooldown, has
/// charge levels and is not charging yet; a charge is released only once it
/// is no longer held, firing the level it reached when that level exists;
/// while a charge is held nothing happens.
pub proof fn charge_shots_follow_the_button(
    charging: Option<(usize, bool)>,
    just_pressed: bool,
    on_cooldown: bool,
    level_count: usize,
)
    ensures
        ({
            let a = charge_shot_next(charging, just_pressed, on_cooldown, level_count);
            &&& a is StartCharging <==> (charging is None && just_pressed && !on_cooldown && level_count > 0)
            &&& a is Release <==> (charging is Some && !charging.unwrap().1)
            &&& a == ChargeAction::Release(Some(charging.unwrap().0)) ==> charging.unwrap().0 < level_count
                && charging == Some((charging.unwrap().0, false))
            &&& a == ChargeAction::Release(None) ==> charging is Some && charging.unwrap().0 >= level_count
            &&& (a is Release && charging.unwrap().0 < level_count) ==> a == ChargeAction::Release(
                Some(charging.unwrap().0),
            )
            &&& charging is Some && charging.unwrap().1 ==> a is Wait
        }),
{
}

/// Decides one frame of a charge-up weapon: `charging` is the charge level
/// reached and whether the charge is still held, if a charge is under way.
pub fn charge_shot_action(
    charging: Option<(usize, bool)>,
    just_pressed: bool,
    on_cooldown: bool,
    level_count: usize,
) -> (action: ChargeAction)
    ensures
        action == charge_shot_next(charging, just_pressed, on_cooldown, level_count),
{
    match charging {
        None => {
            if just_pressed && !on_cooldown && level_count > 0 {
                ChargeAction::StartCharging
            } else {
                ChargeAction::Wait
            }
        },
        Some((level, held)) => {
            if held {
                ChargeAction::Wait
            } else if level < level_count {
                ChargeAction::Release(Some(level))
            } else {
                ChargeAction::Release(None)
            }
        },
    }
}

} // verus!
