//! Snapshot building for the poll loop: what one tick publishes, whether a
//! player resolved, the registry answered with nothing, or the query failed.

use vstd::prelude::*;

verus! {

use crate::model::{BridgeState, DescriptorView, PlaybackStatus, PlayerDescriptor, PlayerSelection,
    SelectionView, SnapshotView, default_snapshot_view};

/// The floor the poll period is clamped to, bounding registry load.
pub const POLL_FLOOR_MS: u64 = 200;

/// Clamps a configured poll period to the floor.
pub fn clamp_poll_interval_ms(configured_ms: u64) -> (r: u64)
    ensures
        r == if configured_ms < POLL_FLOOR_MS {
            POLL_FLOOR_MS
        } else {
            configured_ms
        },
        r >= POLL_FLOOR_MS,
{
    if configured_ms < POLL_FLOOR_MS {
        POLL_FLOOR_MS
    } else {
        configured_ms
    }
}

/// What one round of registry queries reported of the resolved player.
/// Every field a query may fail to answer is optional; the builder applies
/// the documented defaults.
#[derive(Debug)]
pub struct PlayerReading {
    /// The resolved player's registry identifier.
    pub bus_name: String,
    /// The resolved player's display name.
    pub player_name: String,
    /// Playback status, if the query answered.
    pub playback_status: Option<PlaybackStatus>,
    pub title: Option<String>,
    pub artists: Vec<String>,
    pub album: Option<String>,
    pub art_url: Option<String>,
    pub duration_us: Option<u64>,
    /// Playback position, if the query answered.
    pub position_us: Option<u64>,
    pub can_go_next: Option<bool>,
    pub can_go_previous: Option<bool>,
    pub can_play: Option<bool>,
    pub can_pause: Option<bool>,
    pub can_seek: Option<bool>,
}

/// Mathematical value of a `PlayerReading`.
#[verifier::ext_equal]
pub struct ReadingView {
    pub bus_name: Seq<char>,
    pub player_name: Seq<char>,
    pub playback_status: Option<PlaybackStatus>,
    pub title: Option<Seq<char>>,
    pub artists: Seq<Seq<char>>,
    pub album: Option<Seq<char>>,
    pub art_url: Option<Seq<char>>,
    pub duration_us: Option<u64>,
    pub position_us: Option<u64>,
    pub can_go_next: Option<bool>,
    pub can_go_previous: Option<bool>,
    pub can_play: Option<bool>,
    pub can_pause: Option<bool>,
    pub can_seek: Option<bool>,
}

impl View for PlayerReading {
    type V = ReadingView;

    open spec fn view(&self) -> ReadingView {
        ReadingView {
            bus_name: self.bus_name@,
            player_name: self.player_name@,
            playback_status: self.playback_status,
            title: self.title.deep_view(),
            artists: self.artists.deep_view(),
            album: self.album.deep_view(),
            art_url: self.art_url.deep_view(),
            duration_us: self.duration_us,
            position_us: self.position_us,
            can_go_next: self.can_go_next,
            can_go_previous: self.can_go_previous,
            can_play: self.can_play,
            can_pause: self.can_pause,
            can_seek: self.can_seek,
        }
    }
}

/// A status that failed to read counts as stopped.
pub open spec fn effective_status(status: Option<PlaybackStatus>) -> PlaybackStatus {
    match status {
        Option::Some(s) => s,
        Option::None => PlaybackStatus::Stopped,
    }
}

/// A capability that failed to read counts as absent.
pub open spec fn flag_or_false(flag: Option<bool>) -> bool {
    match flag {
        Option::Some(b) => b,
        Option::None => false,
    }
}

/// The playback rate the snapshot carries, in thousandths: unit rate while
/// playing, zero otherwise.
pub open spec fn rate_milli_of(status: PlaybackStatus) -> u32 {
    if status == PlaybackStatus::Playing {
        1000
    } else {
        0
    }
}

/// The snapshot published when a player resolved: its reading, with the
/// documented defaults for unanswered queries, the resolved player marked
/// active, and the policy and discovered list attached.
pub open spec fn populated_view(
    reading: ReadingView,
    sel: SelectionView,
    players: Seq<DescriptorView>,
    now_ms: u64,
) -> SnapshotView {
    SnapshotView {
        player_name: reading.player_name,
        playback_status: effective_status(reading.playback_status),
        title: reading.title,
        artist: reading.artists,
        album: reading.album,
        art_url: reading.art_url,
        duration_us: reading.duration_us,
        position_us: match reading.position_us {
            Option::Some(p) => p,
            Option::None => 0,
        },
        playback_rate_milli: rate_milli_of(effective_status(reading.playback_status)),
        can_go_next: flag_or_false(reading.can_go_next),
        can_go_previous: flag_or_false(reading.can_go_previous),
        can_play: flag_or_false(reading.can_play),
        can_pause: flag_or_false(reading.can_pause),
        can_seek: flag_or_false(reading.can_seek),
        active_player_bus_name: Option::Some(reading.bus_name),
        selection_mode: sel.mode,
        selected_player_bus_name: sel.selected,
        available_players: players,
        updated_at_ms: now_ms,
    }
}

/// The degraded snapshot published when nothing resolved or the registry
/// query failed: idle playback defaults, the prevailing policy carried
/// forward, and whatever player list is known.
pub open spec fn idle_view(
    sel: SelectionView,
    players: Seq<DescriptorView>,
    now_ms: u64,
) -> SnapshotView {
    SnapshotView {
        selection_mode: sel.mode,
        selected_player_bus_name: sel.selected,
        available_players: players,
        updated_at_ms: now_ms,
        ..default_snapshot_view()
    }
}

/// Builds the snapshot for a resolved player.
pub fn build_player_snapshot(
    reading: PlayerReading,
    selection: PlayerSelection,
    available: Vec<PlayerDescriptor>,
    now_ms: u64,
) -> (r: BridgeState)
    ensures
        r@ == populated_view(reading@, selection@, available.deep_view(), now_ms),
{
    let status = match reading.playback_status {
        Option::Some(s) => s,
        Option::None => PlaybackStatus::Stopped,
    };
    let r = BridgeState {
        player_name: reading.player_name,
        playback_status: status,
        title: reading.title,
        artist: reading.artists,
        album: reading.album,
        art_url: reading.art_url,
        duration_us: reading.duration_us,
        position_us: match reading.position_us {
            Option::Some(p) => p,
            Option::None => 0,
        },
        playback_rate_milli: if status == PlaybackStatus::Playing {
            1000
        } else {
            0
        },
        can_go_next: match reading.can_go_next {
            Option::Some(b) => b,
            Option::None => false,
        },
        can_go_previous: match reading.can_go_previous {
            Option::Some(b) => b,
            Option::None => false,
        },
        can_play: match reading.can_play {
            Option::Some(b) => b,
            Option::None => false,
        },
        can_pause: match reading.can_pause {
            Option::Some(b) => b,
            Option::None => false,
        },
        can_seek: match reading.can_seek {
            Option::Some(b) => b,
            Option::None => false,
        },
        active_player_bus_name: Option::Some(reading.bus_name),
        selection_mode: selection.mode,
        selected_player_bus_name: selection.selected_player_bus_name,
        available_players: available,
        updated_at_ms: now_ms,
    };
    proof {
        assert(r@ =~= populated_view(reading@, selection@, available.deep_view(), now_ms));
    }
    r
}

/// Builds the degraded snapshot for a tick on which no player resolved.
pub fn idle_snapshot(
    selection: PlayerSelection,
    available: Vec<PlayerDescriptor>,
    now_ms: u64,
) -> (r: BridgeState)
    ensures
        r@ == idle_view(selection@, available.deep_view(), now_ms),
{
    let mut r = BridgeState::default();
    r.selection_mode = selection.mode;
    r.selected_player_bus_name = selection.selected_player_bus_name;
    r.available_players = available;
    r.updated_at_ms = now_ms;
    proof {
        assert(r@ =~= idle_view(selection@, available.deep_view(), now_ms));
    }
    r
}

/// The decision one poll tick publishes: a populated snapshot when a player
/// resolved and was read, the degraded idle snapshot otherwise.
pub fn assemble_snapshot(
    resolved: Option<PlayerReading>,
    selection: PlayerSelection,
    available: Vec<PlayerDescriptor>,
    now_ms: u64,
) -> (r: BridgeState)
    ensures
        resolved is Some ==> r@ == populated_view(
            resolved->0@,
            selection@,
            available.deep_view(),
            now_ms,
        ),
        resolved is None ==> r@ == idle_view(selection@, available.deep_view(), now_ms),
{
    match resolved {
        Option::Some(reading) => build_player_snapshot(reading, selection, available, now_ms),
        Option::None => idle_snapshot(selection, available, now_ms),
    }
}

/// Relies on `std::time::SystemTime::now` and `duration_since`: the wall
/// clock, read as whole milliseconds since the Unix epoch, or nothing when
/// the clock reads before the epoch. The result depends on the clock, so
/// nothing more is promised of it.
#[verifier::external_body]
fn system_now_ms() -> Option<u64> {
    match std::time::SystemTime::now().duration_since(std::time::UNIX_EPOCH) {
        Ok(d) => Some(d.as_millis() as u64),
        Err(_) => None,
    }
}

/// The timestamp a clock reading yields: the reading itself, or the epoch
/// when the clock gave none.
pub fn timestamp_or_epoch(reading: Option<u64>) -> (r: u64)
    ensures
        r == (match reading {
            Option::Some(ms) => ms,
            Option::None => 0u64,
        }),
{
    match reading {
        Option::Some(ms) => ms,
        Option::None => 0,
    }
}

/// The publish timestamp: the wall clock in milliseconds since the Unix
/// epoch, or zero when the clock reads before it.
pub fn now_ms() -> u64 {
    timestamp_or_epoch(system_now_ms())
}

} // verus!
