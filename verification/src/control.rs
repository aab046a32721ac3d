//! Control-command handling: parsing an action name, choosing a seek
//! action, and planning the registry command for a resolved player.

use vstd::prelude::*;

verus! {

use crate::model::{ControlAction, PlayerDescriptor, PlayerSelection};
use crate::resolve::{resolve_player, resolve_spec};
use crate::text::str_eq;

/// Why a control request failed before or at the registry.
#[derive(Debug)]
pub enum ControlError {
    /// The registry could not be reached or its query failed.
    RegistryUnavailable,
    /// No player matches the resolution rules.
    NoPlayerResolved,
    /// The registry refused the command; carries the underlying message.
    CommandRejected(String),
    /// An absolute seek was asked of a player with no current track to
    /// anchor it.
    NoTrackContext,
}

/// The registry-level command a planned action maps to. An absolute seek is
/// addressed per track, so it carries the anchoring track identifier.
#[derive(Debug)]
pub enum RegistryCommand {
    Play,
    Pause,
    PlayPause,
    Next,
    Previous,
    Stop,
    SeekBy(i64),
    SetPosition { track_id: String, position_us: u64 },
}

/// The action each request path name stands for; unknown names mean none.
pub open spec fn parse_action_spec(s: Seq<char>) -> Option<ControlAction> {
    if s == "play"@ {
        Option::Some(ControlAction::Play)
    } else if s == "pause"@ {
        Option::Some(ControlAction::Pause)
    } else if s == "play-pause"@ || s == "toggle"@ {
        Option::Some(ControlAction::PlayPause)
    } else if s == "next"@ {
        Option::Some(ControlAction::Next)
    } else if s == "previous"@ || s == "prev"@ {
        Option::Some(ControlAction::Previous)
    } else if s == "stop"@ {
        Option::Some(ControlAction::Stop)
    } else {
        Option::None
    }
}

/// Parses a transport-action name from a request path.
pub fn parse_control_action(action: &str) -> (r: Option<ControlAction>)
    ensures
        r == parse_action_spec(action@),
{
    if str_eq(action, "play") {
        Option::Some(ControlAction::Play)
    } else if str_eq(action, "pause") {
        Option::Some(ControlAction::Pause)
    } else if str_eq(action, "play-pause") || str_eq(action, "toggle") {
        Option::Some(ControlAction::PlayPause)
    } else if str_eq(action, "next") {
        Option::Some(ControlAction::Next)
    } else if str_eq(action, "previous") || str_eq(action, "prev") {
        Option::Some(ControlAction::Previous)
    } else if str_eq(action, "stop") {
        Option::Some(ControlAction::Stop)
    } else {
        Option::None
    }
}

/// Chooses the seek action a request asked for: an absolute position wins
/// over a relative offset, and with neither there is no action.
pub fn seek_action(position_us: Option<u64>, offset_us: Option<i64>) -> (r: Option<ControlAction>)
    ensures
        position_us is Some ==> r == Option::Some(ControlAction::SeekTo(position_us->0)),
        position_us is None && offset_us is Some ==> r == Option::Some(
            ControlAction::SeekBy(offset_us->0),
        ),
        position_us is None && offset_us is None ==> r is None,
{
    match position_us {
        Option::Some(p) => Option::Some(ControlAction::SeekTo(p)),
        Option::None => match offset_us {
            Option::Some(o) => Option::Some(ControlAction::SeekBy(o)),
            Option::None => Option::None,
        },
    }
}

/// Plans the registry command for an action against a resolved player whose
/// current track identifier, if any, is given. An absolute seek needs the
/// track as an anchor and fails without one; a relative seek never needs
/// it; every other action maps directly.
pub fn plan_command(action: ControlAction, track_id: Option<String>) -> (r: Result<
    RegistryCommand,
    ControlError,
>)
    ensures
        action == ControlAction::Play ==> r == Ok::<_, ControlError>(RegistryCommand::Play),
        action == ControlAction::Pause ==> r == Ok::<_, ControlError>(RegistryCommand::Pause),
        action == ControlAction::PlayPause ==> r == Ok::<_, ControlError>(
            RegistryCommand::PlayPause,
        ),
        action == ControlAction::Next ==> r == Ok::<_, ControlError>(RegistryCommand::Next),
        action == ControlAction::Previous ==> r == Ok::<_, ControlError>(
            RegistryCommand::Previous,
        ),
        action == ControlAction::Stop ==> r == Ok::<_, ControlError>(RegistryCommand::Stop),
        action matches ControlAction::SeekBy(o) ==> r == Ok::<_, ControlError>(
            RegistryCommand::SeekBy(o),
        ),
        action is SeekTo && track_id is Some ==> r == Ok::<_, ControlError>(
            RegistryCommand::SetPosition {
                track_id: track_id->0,
                position_us: action->SeekTo_0,
            },
        ),
        r is Err <==> (action is SeekTo && track_id is None),
        r is Err ==> r == Err::<RegistryCommand, _>(ControlError::NoTrackContext),
{
    match action {
        ControlAction::Play => Ok(RegistryCommand::Play),
        ControlAction::Pause => Ok(RegistryCommand::Pause),
        ControlAction::PlayPause => Ok(RegistryCommand::PlayPause),
        ControlAction::Next => Ok(RegistryCommand::Next),
        ControlAction::Previous => Ok(RegistryCommand::Previous),
        ControlAction::Stop => Ok(RegistryCommand::Stop),
        ControlAction::SeekBy(o) => Ok(RegistryCommand::SeekBy(o)),
        ControlAction::SeekTo(p) => match track_id {
            Option::Some(t) => Ok(RegistryCommand::SetPosition { track_id: t, position_us: p }),
            Option::None => Err(ControlError::NoTrackContext),
        },
    }
}

/// Resolves the player a command must go to, from fresh registry data and
/// the current policy; with no resolution the command fails rather than
/// being dispatched blindly.
pub fn resolve_required(
    players: &Vec<PlayerDescriptor>,
    active: &Option<PlayerDescriptor>,
    selection: &PlayerSelection,
) -> (r: Result<PlayerDescriptor, ControlError>)
    ensures
        resolve_spec(players.deep_view(), active.deep_view(), selection@) matches Option::Some(d)
            ==> (r matches Ok(p) && p.deep_view() == d),
        resolve_spec(players.deep_view(), active.deep_view(), selection@) is None ==> (r matches
            Err(e) && e is NoPlayerResolved),
{
    match resolve_player(players, active, selection) {
        Option::Some(p) => Ok(p),
        Option::None => Err(ControlError::NoPlayerResolved),
    }
}

} // verus!
