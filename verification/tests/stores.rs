use mpris_bridge::model::{BridgeState, PlayerSelection, PlayerSelectionMode};
use mpris_bridge::state::{SelectionStore, StateStore, SUBSCRIBER_BUFFER};
use tokio::sync::broadcast::error::TryRecvError;

fn numbered_snapshot(n: u64) -> BridgeState {
    let mut s = BridgeState::default();
    s.player_name = format!("player-{n}");
    s.updated_at_ms = n;
    s
}

#[test]
fn snapshot_returns_latest_after_updates() {
    let mut store = StateStore::new();
    assert_eq!(store.snapshot().player_name, "none");
    for n in 1..=3 {
        store.update(numbered_snapshot(n));
    }
    let got = store.snapshot();
    assert_eq!(got.player_name, "player-3");
    assert_eq!(got.updated_at_ms, 3);
}

#[test]
fn subscriber_receives_every_update_in_order() {
    let mut store = StateStore::new();
    let mut rx = store.subscribe();
    for n in 1..=5 {
        store.update(numbered_snapshot(n));
    }
    for n in 1..=5 {
        let got = rx.try_recv().expect("update missing");
        assert_eq!(got.updated_at_ms, n);
        assert_eq!(got.player_name, format!("player-{n}"));
    }
    assert!(matches!(rx.try_recv(), Err(TryRecvError::Empty)));
}

#[test]
fn subscriber_sees_no_replay_of_earlier_updates() {
    let mut store = StateStore::new();
    store.update(numbered_snapshot(1));
    let mut rx = store.subscribe();
    assert!(matches!(rx.try_recv(), Err(TryRecvError::Empty)));
    store.update(numbered_snapshot(2));
    assert_eq!(rx.try_recv().unwrap().updated_at_ms, 2);
}

#[test]
fn slow_subscriber_never_blocks_publisher() {
    let mut store = StateStore::new();
    let mut rx = store.subscribe();
    let total = (SUBSCRIBER_BUFFER as u64) * 3;
    for n in 1..=total {
        store.update(numbered_snapshot(n));
    }
    // Publication went through regardless of the unread subscriber.
    assert_eq!(store.snapshot().updated_at_ms, total);
    // The subscriber lost its oldest pending updates, not the newest.
    match rx.try_recv() {
        Err(TryRecvError::Lagged(missed)) => {
            assert!(missed > 0);
        }
        other => panic!("expected a lag report, got {other:?}"),
    }
    let mut last = 0;
    while let Ok(got) = rx.try_recv() {
        last = got.updated_at_ms;
    }
    assert_eq!(last, total);
}

#[test]
fn two_subscribers_observe_the_same_order() {
    let mut store = StateStore::new();
    let mut rx1 = store.subscribe();
    let mut rx2 = store.subscribe();
    for n in 1..=4 {
        store.update(numbered_snapshot(n));
    }
    let seen1: Vec<u64> = (0..4).map(|_| rx1.try_recv().unwrap().updated_at_ms).collect();
    let seen2: Vec<u64> = (0..4).map(|_| rx2.try_recv().unwrap().updated_at_ms).collect();
    assert_eq!(seen1, vec![1, 2, 3, 4]);
    assert_eq!(seen1, seen2);
}

#[test]
fn timestamps_never_decrease_across_stores() {
    let mut store = StateStore::new();
    let mut rx = store.subscribe();
    store.update(numbered_snapshot(5));
    // A value stamped earlier than the stored one is recorded with the
    // stored timestamp instead.
    let mut stale = numbered_snapshot(3);
    stale.player_name = "late-arrival".to_string();
    store.update(stale);
    let got = store.snapshot();
    assert_eq!(got.player_name, "late-arrival");
    assert_eq!(got.updated_at_ms, 5);
    // Subscribers see the same recorded value.
    assert_eq!(rx.try_recv().unwrap().updated_at_ms, 5);
    let second = rx.try_recv().unwrap();
    assert_eq!(second.player_name, "late-arrival");
    assert_eq!(second.updated_at_ms, 5);
}

#[test]
fn selection_store_starts_auto_and_unset() {
    let store = SelectionStore::new();
    let got = store.snapshot();
    assert_eq!(got.mode, PlayerSelectionMode::Auto);
    assert!(got.selected_player_bus_name.is_none());
}

#[test]
fn selection_store_last_write_wins() {
    let mut store = SelectionStore::new();
    store.update(PlayerSelection {
        mode: PlayerSelectionMode::Manual,
        selected_player_bus_name: Some("org.bus.a".to_string()),
    });
    store.update(PlayerSelection {
        mode: PlayerSelectionMode::Manual,
        selected_player_bus_name: Some("org.bus.b".to_string()),
    });
    let got = store.snapshot();
    assert_eq!(got.mode, PlayerSelectionMode::Manual);
    assert_eq!(got.selected_player_bus_name.as_deref(), Some("org.bus.b"));
}
