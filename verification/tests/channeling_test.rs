use eldritch_hero::channeling::{
    auto_beam_step, charge_shot_action, manual_beam_step, BeamAction, BeamChannel, ChargeAction,
};

#[test]
fn automatic_beam_cycles_through_its_cooldown() {
    // Not aiming: nothing starts.
    assert_eq!(auto_beam_step(BeamChannel::Absent, false, false, false, true, true), (BeamChannel::Absent, BeamAction::Nothing));
    // Aiming: a timed beam goes out.
    let (ch, action) = auto_beam_step(BeamChannel::Absent, false, false, true, true, true);
    assert_eq!((ch, action), (BeamChannel::Firing { timed: true }, BeamAction::SpawnBeam));
    // It lasts until its duration is over.
    assert_eq!(auto_beam_step(ch, false, false, true, true, true), (ch, BeamAction::Nothing));
    let (ch, action) = auto_beam_step(ch, false, true, true, true, true);
    assert_eq!((ch, action), (BeamChannel::CoolingDown, BeamAction::DespawnBeam));
    // The cooldown holds everything.
    assert_eq!(auto_beam_step(ch, false, false, true, true, true), (BeamChannel::CoolingDown, BeamAction::Nothing));
    // Once it is over, the next beam goes out in the same frame.
    assert_eq!(
        auto_beam_step(ch, true, false, true, true, true),
        (BeamChannel::Firing { timed: true }, BeamAction::SpawnBeam)
    );
    assert_eq!(auto_beam_step(ch, true, false, false, true, true), (BeamChannel::Idle, BeamAction::Nothing));
}

#[test]
fn automatic_beam_without_cooldown_drops_its_channel() {
    let firing = BeamChannel::Firing { timed: true };
    assert_eq!(auto_beam_step(firing, false, true, true, true, false), (BeamChannel::Absent, BeamAction::DespawnBeam));
    // An untimed beam never ends by itself.
    let endless = BeamChannel::Firing { timed: false };
    assert_eq!(auto_beam_step(endless, true, true, true, false, true), (endless, BeamAction::Nothing));
}

#[test]
fn held_beam_follows_the_button() {
    assert_eq!(
        manual_beam_step(BeamChannel::Absent, false, false, false, true, true, true),
        (BeamChannel::Absent, BeamAction::Nothing)
    );
    assert_eq!(
        manual_beam_step(BeamChannel::Absent, true, false, false, false, true, true),
        (BeamChannel::Absent, BeamAction::Nothing)
    );
    let (ch, action) = manual_beam_step(BeamChannel::Idle, true, false, false, true, false, true);
    assert_eq!((ch, action), (BeamChannel::Firing { timed: false }, BeamAction::SpawnBeam));
    assert_eq!(manual_beam_step(ch, true, false, true, true, false, true), (ch, BeamAction::Nothing));
    // Letting go ends it and starts the cooldown.
    assert_eq!(
        manual_beam_step(ch, false, false, false, true, false, true),
        (BeamChannel::CoolingDown, BeamAction::DespawnBeam)
    );
    // A timed beam ends when its time is up even while held.
    assert_eq!(
        manual_beam_step(BeamChannel::Firing { timed: true }, true, false, true, true, true, false),
        (BeamChannel::Absent, BeamAction::DespawnBeam)
    );
    // A running cooldown ignores the button.
    assert_eq!(
        manual_beam_step(BeamChannel::CoolingDown, true, false, false, true, true, true),
        (BeamChannel::CoolingDown, BeamAction::Nothing)
    );
    assert_eq!(
        manual_beam_step(BeamChannel::CoolingDown, false, true, false, true, true, true),
        (BeamChannel::Idle, BeamAction::Nothing)
    );
}

#[test]
fn charge_shots_start_and_release() {
    assert_eq!(charge_shot_action(None, true, false, 3), ChargeAction::StartCharging);
    assert_eq!(charge_shot_action(None, true, true, 3), ChargeAction::Wait);
    assert_eq!(charge_shot_action(None, false, false, 3), ChargeAction::Wait);
    assert_eq!(charge_shot_action(None, true, false, 0), ChargeAction::Wait);
    assert_eq!(charge_shot_action(Some((1, true)), true, false, 3), ChargeAction::Wait);
    assert_eq!(charge_shot_action(Some((2, false)), false, true, 3), ChargeAction::Release(Some(2)));
    assert_eq!(charge_shot_action(Some((3, false)), false, false, 3), ChargeAction::Release(None));
}
