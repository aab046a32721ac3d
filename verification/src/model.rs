//! The published data model: playback snapshots, player descriptors, the
//! selection policy, and control actions.

use vstd::prelude::*;

verus! {

use crate::text::{is_blank, str_is_blank};

/// Which rule picks the target player: automatic resolution or an explicit
/// user choice.
#[derive(Clone, Copy, Debug, PartialEq, Eq, Structural)]
pub enum PlayerSelectionMode {
    Auto,
    Manual,
}

/// Playback state reported by a player; `Idle` is the state published when
/// no player resolves.
#[derive(Clone, Copy, Debug, PartialEq, Eq, Structural)]
pub enum PlaybackStatus {
    Playing,
    Paused,
    Stopped,
    Idle,
}

/// One discoverable player: its registry identifier and display name.
#[derive(Debug)]
pub struct PlayerDescriptor {
    pub bus_name: String,
    pub player_name: String,
}

/// Mathematical value of a `PlayerDescriptor`.
#[verifier::ext_equal]
pub struct DescriptorView {
    pub bus_name: Seq<char>,
    pub player_name: Seq<char>,
}

impl View for PlayerDescriptor {
    type V = DescriptorView;

    open spec fn view(&self) -> DescriptorView {
        DescriptorView { bus_name: self.bus_name@, player_name: self.player_name@ }
    }
}

impl DeepView for PlayerDescriptor {
    type V = DescriptorView;

    open spec fn deep_view(&self) -> DescriptorView {
        self@
    }
}

impl Clone for PlayerDescriptor {
    fn clone(&self) -> (r: Self)
        ensures
            r == *self,
    {
        PlayerDescriptor {
            bus_name: self.bus_name.clone(),
            player_name: self.player_name.clone(),
        }
    }
}

/// The user's selection policy: the mode, and in manual mode the chosen
/// player identifier (`None` when unset).
#[derive(Debug)]
pub struct PlayerSelection {
    pub mode: PlayerSelectionMode,
    pub selected_player_bus_name: Option<String>,
}

/// Mathematical value of a `PlayerSelection`.
#[verifier::ext_equal]
pub struct SelectionView {
    pub mode: PlayerSelectionMode,
    pub selected: Option<Seq<char>>,
}

impl View for PlayerSelection {
    type V = SelectionView;

    open spec fn view(&self) -> SelectionView {
        SelectionView { mode: self.mode, selected: self.selected_player_bus_name.deep_view() }
    }
}

/// Copies an optional string; the copy carries the same characters.
pub fn clone_opt_string(o: &Option<String>) -> (r: Option<String>)
    ensures
        r == *o,
{
    match o {
        Option::Some(s) => Option::Some(s.clone()),
        Option::None => Option::None,
    }
}

impl Clone for PlayerSelection {
    fn clone(&self) -> (r: Self)
        ensures
            r == *self,
    {
        PlayerSelection {
            mode: self.mode,
            selected_player_bus_name: clone_opt_string(&self.selected_player_bus_name),
        }
    }
}

impl Default for PlayerSelection {
    /// The policy at process start: automatic, with no chosen player.
    fn default() -> (r: Self)
        ensures
            r.mode == PlayerSelectionMode::Auto,
            r.selected_player_bus_name is None,
    {
        PlayerSelection { mode: PlayerSelectionMode::Auto, selected_player_bus_name: Option::None }
    }
}

/// What a blank-insensitive chosen-player value means: a missing or blank
/// identifier is unset, anything else is kept as given.
pub open spec fn normalize_selected_spec(selected: Option<Seq<char>>) -> Option<Seq<char>> {
    match selected {
        Option::Some(s) => if is_blank(s) {
            Option::None
        } else {
            Option::Some(s)
        },
        Option::None => Option::None,
    }
}

/// Builds the selection policy a request asked for: a missing mode falls
/// back to automatic, and a blank chosen-player identifier is unset.
pub fn normalize_selection(mode: Option<PlayerSelectionMode>, selected: Option<String>) -> (r:
    PlayerSelection)
    ensures
        r@.mode == (match mode {
            Option::Some(m) => m,
            Option::None => PlayerSelectionMode::Auto,
        }),
        r@.selected == normalize_selected_spec(selected.deep_view()),
{
    let m = match mode {
        Option::Some(m) => m,
        Option::None => PlayerSelectionMode::Auto,
    };
    let chosen = match selected {
        Option::Some(s) => {
            if str_is_blank(s.as_str()) {
                Option::None
            } else {
                Option::Some(s)
            }
        },
        Option::None => Option::None,
    };
    PlayerSelection { mode: m, selected_player_bus_name: chosen }
}

/// A blank chosen-player identifier normalizes exactly as an omitted one:
/// both leave the selection unset.
pub proof fn lemma_blank_selected_is_unset(s: Seq<char>)
    requires
        is_blank(s),
    ensures
        normalize_selected_spec(Option::Some(s)) == normalize_selected_spec(
            Option::<Seq<char>>::None,
        ),
{
}

/// One published state record: current playback, capabilities, the policy in
/// effect, and the discovered players. The playback rate is carried in
/// thousandths, so that the record stays within exact integer arithmetic.
#[derive(Debug)]
pub struct BridgeState {
    pub player_name: String,
    pub playback_status: PlaybackStatus,
    pub title: Option<String>,
    pub artist: Vec<String>,
    pub album: Option<String>,
    pub art_url: Option<String>,
    pub duration_us: Option<u64>,
    pub position_us: u64,
    pub playback_rate_milli: u32,
    pub can_go_next: bool,
    pub can_go_previous: bool,
    pub can_play: bool,
    pub can_pause: bool,
    pub can_seek: bool,
    pub active_player_bus_name: Option<String>,
    pub selection_mode: PlayerSelectionMode,
    pub selected_player_bus_name: Option<String>,
    pub available_players: Vec<PlayerDescriptor>,
    pub updated_at_ms: u64,
}

/// Mathematical value of a `BridgeState`.
#[verifier::ext_equal]
pub struct SnapshotView {
    pub player_name: Seq<char>,
    pub playback_status: PlaybackStatus,
    pub title: Option<Seq<char>>,
    pub artist: Seq<Seq<char>>,
    pub album: Option<Seq<char>>,
    pub art_url: Option<Seq<char>>,
    pub duration_us: Option<u64>,
    pub position_us: u64,
    pub playback_rate_milli: u32,
    pub can_go_next: bool,
    pub can_go_previous: bool,
    pub can_play: bool,
    pub can_pause: bool,
    pub can_seek: bool,
    pub active_player_bus_name: Option<Seq<char>>,
    pub selection_mode: PlayerSelectionMode,
    pub selected_player_bus_name: Option<Seq<char>>,
    pub available_players: Seq<DescriptorView>,
    pub updated_at_ms: u64,
}

impl View for BridgeState {
    type V = SnapshotView;

    open spec fn view(&self) -> SnapshotView {
        SnapshotView {
            player_name: self.player_name@,
            playback_status: self.playback_status,
            title: self.title.deep_view(),
            artist: self.artist.deep_view(),
            album: self.album.deep_view(),
            art_url: self.art_url.deep_view(),
            duration_us: self.duration_us,
            position_us: self.position_us,
            playback_rate_milli: self.playback_rate_milli,
            can_go_next: self.can_go_next,
            can_go_previous: self.can_go_previous,
            can_play: self.can_play,
            can_pause: self.can_pause,
            can_seek: self.can_seek,
            active_player_bus_name: self.active_player_bus_name.deep_view(),
            selection_mode: self.selection_mode,
            selected_player_bus_name: self.selected_player_bus_name.deep_view(),
            available_players: self.available_players.deep_view(),
            updated_at_ms: self.updated_at_ms,
        }
    }
}

impl Clone for BridgeState {
    fn clone(&self) -> (r: Self)
        ensures
            r@ == self@,
    {
        let artist = self.artist.clone();
        let available_players = self.available_players.clone();
        proof {
            assert(artist@ =~= self.artist@);
            assert(available_players@ =~= self.available_players@);
        }
        let r = BridgeState {
            player_name: self.player_name.clone(),
            playback_status: self.playback_status,
            title: clone_opt_string(&self.title),
            artist,
            album: clone_opt_string(&self.album),
            art_url: clone_opt_string(&self.art_url),
            duration_us: self.duration_us,
            position_us: self.position_us,
            playback_rate_milli: self.playback_rate_milli,
            can_go_next: self.can_go_next,
            can_go_previous: self.can_go_previous,
            can_play: self.can_play,
            can_pause: self.can_pause,
            can_seek: self.can_seek,
            active_player_bus_name: clone_opt_string(&self.active_player_bus_name),
            selection_mode: self.selection_mode,
            selected_player_bus_name: clone_opt_string(&self.selected_player_bus_name),
            available_players,
            updated_at_ms: self.updated_at_ms,
        };
        proof {
            assert(r@ =~= self@);
        }
        r
    }
}

/// The idle defaults: no player, no metadata, position zero, unit playback
/// rate, automatic selection, and an epoch timestamp.
pub open spec fn default_snapshot_view() -> SnapshotView {
    SnapshotView {
        player_name: "none"@,
        playback_status: PlaybackStatus::Idle,
        title: Option::None,
        artist: Seq::empty(),
        album: Option::None,
        art_url: Option::None,
        duration_us: Option::None,
        position_us: 0,
        playback_rate_milli: 1000,
        can_go_next: false,
        can_go_previous: false,
        can_play: false,
        can_pause: false,
        can_seek: false,
        active_player_bus_name: Option::None,
        selection_mode: PlayerSelectionMode::Auto,
        selected_player_bus_name: Option::None,
        available_players: Seq::empty(),
        updated_at_ms: 0,
    }
}

impl Default for BridgeState {
    /// The snapshot published before any poll completes.
    fn default() -> (r: Self)
        ensures
            r@ == default_snapshot_view(),
    {
        let r = BridgeState {
            player_name: "none".to_owned(),
            playback_status: PlaybackStatus::Idle,
            title: Option::None,
            artist: Vec::new(),
            album: Option::None,
            art_url: Option::None,
            duration_us: Option::None,
            position_us: 0,
            playback_rate_milli: 1000,
            can_go_next: false,
            can_go_previous: false,
            can_play: false,
            can_pause: false,
            can_seek: false,
            active_player_bus_name: Option::None,
            selection_mode: PlayerSelectionMode::Auto,
            selected_player_bus_name: Option::None,
            available_players: Vec::new(),
            updated_at_ms: 0,
        };
        proof {
            assert(r@ =~= default_snapshot_view());
        }
        r
    }
}

/// A transport command against the resolved player.
#[derive(Clone, Copy, Debug, PartialEq)]
pub enum ControlAction {
    Play,
    Pause,
    PlayPause,
    Next,
    Previous,
    Stop,
    SeekTo(u64),
    SeekBy(i64),
}

} // verus!
