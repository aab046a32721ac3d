use mpris_bridge::model::{PlayerDescriptor, PlayerSelection, PlayerSelectionMode};
use mpris_bridge::resolve::resolve_player;

fn desc(bus: &str, name: &str) -> PlayerDescriptor {
    PlayerDescriptor {
        bus_name: bus.to_string(),
        player_name: name.to_string(),
    }
}

fn auto_selection() -> PlayerSelection {
    PlayerSelection {
        mode: PlayerSelectionMode::Auto,
        selected_player_bus_name: None,
    }
}

fn manual_selection(bus: &str) -> PlayerSelection {
    PlayerSelection {
        mode: PlayerSelectionMode::Manual,
        selected_player_bus_name: Some(bus.to_string()),
    }
}

#[test]
fn auto_picks_active_player() {
    let players = vec![desc("org.bus.a", "A"), desc("org.bus.b", "B")];
    let active = Some(desc("org.bus.b", "B"));
    let r = resolve_player(&players, &active, &auto_selection()).unwrap();
    assert_eq!(r.bus_name, "org.bus.b");
    assert_eq!(r.player_name, "B");
}

#[test]
fn manual_choice_overrides_active_signal() {
    let players = vec![desc("org.bus.a", "A"), desc("org.bus.b", "B")];
    let active = Some(desc("org.bus.b", "B"));
    let r = resolve_player(&players, &active, &manual_selection("org.bus.a")).unwrap();
    assert_eq!(r.bus_name, "org.bus.a");
    assert_eq!(r.player_name, "A");
}

#[test]
fn manual_choice_missing_falls_back_to_active() {
    let players = vec![desc("org.bus.a", "A"), desc("org.bus.b", "B")];
    let active = Some(desc("org.bus.b", "B"));
    let r = resolve_player(&players, &active, &manual_selection("org.bus.gone")).unwrap();
    assert_eq!(r.bus_name, "org.bus.b");
}

#[test]
fn manual_mode_without_choice_behaves_like_auto() {
    let players = vec![desc("org.bus.a", "A")];
    let sel = PlayerSelection {
        mode: PlayerSelectionMode::Manual,
        selected_player_bus_name: None,
    };
    let r = resolve_player(&players, &None, &sel).unwrap();
    assert_eq!(r.bus_name, "org.bus.a");
}

#[test]
fn no_active_signal_picks_last_enumerated() {
    let players = vec![desc("org.bus.a", "A"), desc("org.bus.b", "B"), desc("org.bus.c", "C")];
    let r = resolve_player(&players, &None, &auto_selection()).unwrap();
    assert_eq!(r.bus_name, "org.bus.c");
}

#[test]
fn manual_choice_picks_first_match() {
    let players = vec![desc("org.bus.a", "A1"), desc("org.bus.a", "A2")];
    let r = resolve_player(&players, &None, &manual_selection("org.bus.a")).unwrap();
    assert_eq!(r.player_name, "A1");
}

#[test]
fn nothing_discovered_resolves_nothing() {
    let players: Vec<PlayerDescriptor> = Vec::new();
    assert!(resolve_player(&players, &None, &auto_selection()).is_none());
    assert!(resolve_player(&players, &None, &manual_selection("org.bus.a")).is_none());
}

#[test]
fn active_signal_outside_list_still_wins() {
    let players = vec![desc("org.bus.a", "A")];
    let active = Some(desc("org.bus.x", "X"));
    let r = resolve_player(&players, &active, &auto_selection()).unwrap();
    assert_eq!(r.bus_name, "org.bus.x");
}

#[test]
fn resolution_is_deterministic_on_identical_inputs() {
    let players = vec![desc("org.bus.a", "A"), desc("org.bus.b", "B")];
    let active = Some(desc("org.bus.a", "A"));
    let first = resolve_player(&players, &active, &auto_selection()).unwrap();
    let second = resolve_player(&players, &active, &auto_selection()).unwrap();
    assert_eq!(first.bus_name, second.bus_name);
    assert_eq!(first.player_name, second.player_name);
}
