use mpris_bridge::control::{
    parse_control_action, plan_command, resolve_required, seek_action, ControlError,
    RegistryCommand,
};
use mpris_bridge::model::{ControlAction, PlayerDescriptor, PlayerSelection, PlayerSelectionMode};

#[test]
fn parse_knows_every_action_name() {
    assert!(matches!(parse_control_action("play"), Some(ControlAction::Play)));
    assert!(matches!(parse_control_action("pause"), Some(ControlAction::Pause)));
    assert!(matches!(parse_control_action("play-pause"), Some(ControlAction::PlayPause)));
    assert!(matches!(parse_control_action("toggle"), Some(ControlAction::PlayPause)));
    assert!(matches!(parse_control_action("next"), Some(ControlAction::Next)));
    assert!(matches!(parse_control_action("previous"), Some(ControlAction::Previous)));
    assert!(matches!(parse_control_action("prev"), Some(ControlAction::Previous)));
    assert!(matches!(parse_control_action("stop"), Some(ControlAction::Stop)));
}

#[test]
fn parse_rejects_unknown_names() {
    assert!(parse_control_action("").is_none());
    assert!(parse_control_action("restart").is_none());
    assert!(parse_control_action("Play").is_none());
    assert!(parse_control_action("seek").is_none());
}

#[test]
fn seek_action_prefers_absolute_position() {
    assert!(matches!(seek_action(Some(1500), Some(-200)), Some(ControlAction::SeekTo(1500))));
    assert!(matches!(seek_action(Some(0), None), Some(ControlAction::SeekTo(0))));
    assert!(matches!(seek_action(None, Some(-200)), Some(ControlAction::SeekBy(-200))));
    assert!(seek_action(None, None).is_none());
}

#[test]
fn absolute_seek_without_track_fails_with_no_track_context() {
    let r = plan_command(ControlAction::SeekTo(90_000_000), None);
    assert!(matches!(r, Err(ControlError::NoTrackContext)));
}

#[test]
fn absolute_seek_with_track_carries_the_anchor() {
    let r = plan_command(ControlAction::SeekTo(90_000_000), Some("/track/7".to_string()));
    match r {
        Ok(RegistryCommand::SetPosition {
            track_id,
            position_us,
        }) => {
            assert_eq!(track_id, "/track/7");
            assert_eq!(position_us, 90_000_000);
        }
        other => panic!("expected an anchored position command, got {other:?}"),
    }
}

#[test]
fn relative_seek_never_needs_a_track() {
    let r = plan_command(ControlAction::SeekBy(-5_000_000), None);
    assert!(matches!(r, Ok(RegistryCommand::SeekBy(-5_000_000))));
}

#[test]
fn plain_actions_map_directly() {
    assert!(matches!(plan_command(ControlAction::Play, None), Ok(RegistryCommand::Play)));
    assert!(matches!(plan_command(ControlAction::Pause, None), Ok(RegistryCommand::Pause)));
    assert!(matches!(
        plan_command(ControlAction::PlayPause, None),
        Ok(RegistryCommand::PlayPause)
    ));
    assert!(matches!(plan_command(ControlAction::Next, None), Ok(RegistryCommand::Next)));
    assert!(matches!(plan_command(ControlAction::Previous, None), Ok(RegistryCommand::Previous)));
    assert!(matches!(plan_command(ControlAction::Stop, None), Ok(RegistryCommand::Stop)));
}

#[test]
fn dispatch_without_resolution_fails_with_no_player_resolved() {
    let players: Vec<PlayerDescriptor> = Vec::new();
    let sel = PlayerSelection {
        mode: PlayerSelectionMode::Auto,
        selected_player_bus_name: None,
    };
    let r = resolve_required(&players, &None, &sel);
    assert!(matches!(r, Err(ControlError::NoPlayerResolved)));
}

#[test]
fn dispatch_resolves_fresh_registry_data() {
    let players = vec![PlayerDescriptor {
        bus_name: "org.bus.a".to_string(),
        player_name: "A".to_string(),
    }];
    let sel = PlayerSelection {
        mode: PlayerSelectionMode::Auto,
        selected_player_bus_name: None,
    };
    let r = resolve_required(&players, &None, &sel).unwrap();
    assert_eq!(r.bus_name, "org.bus.a");
}
