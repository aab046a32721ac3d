//! Player resolution: the pure decision that picks the target player from
//! the discovered players, the registry's active-player signal, and the
//! current selection policy. The poll loop and the control dispatcher both
//! evaluate it, on fresh registry data each time.

use vstd::prelude::*;

verus! {

use crate::model::{DescriptorView, PlayerDescriptor, PlayerSelection, PlayerSelectionMode,
    SelectionView};

/// The first discovered player carrying the given identifier.
pub open spec fn find_by_bus(players: Seq<DescriptorView>, bus_name: Seq<char>) -> Option<
    DescriptorView,
>
    decreases players.len(),
{
    if players.len() == 0 {
        Option::None
    } else if players[0].bus_name == bus_name {
        Option::Some(players[0])
    } else {
        find_by_bus(players.drop_first(), bus_name)
    }
}

/// Whether some discovered player carries the given identifier.
pub open spec fn has_player(players: Seq<DescriptorView>, bus_name: Seq<char>) -> bool {
    exists|i: int| 0 <= i < players.len() && players[i].bus_name == bus_name
}

/// The manual rule: in manual mode with a chosen identifier that is among
/// the discovered players, the first such player; otherwise nothing.
pub open spec fn manual_choice(players: Seq<DescriptorView>, sel: SelectionView) -> Option<
    DescriptorView,
> {
    if sel.mode == PlayerSelectionMode::Manual && sel.selected is Some {
        find_by_bus(players, sel.selected->0)
    } else {
        Option::None
    }
}

/// The resolution rule, first match wins: the valid manual choice; else the
/// registry's active player; else the most recently enumerated player, that
/// is the last of the discovered list; else nothing.
pub open spec fn resolve_spec(
    players: Seq<DescriptorView>,
    active: Option<DescriptorView>,
    sel: SelectionView,
) -> Option<DescriptorView> {
    if manual_choice(players, sel) is Some {
        manual_choice(players, sel)
    } else if active is Some {
        active
    } else if players.len() > 0 {
        Option::Some(players.last())
    } else {
        Option::None
    }
}

proof fn lemma_find_by_bus_absent(players: Seq<DescriptorView>, bus_name: Seq<char>)
    requires
        forall|i: int| 0 <= i < players.len() ==> players[i].bus_name != bus_name,
    ensures
        find_by_bus(players, bus_name) is None,
    decreases players.len(),
{
    if players.len() > 0 {
        assert(forall|i: int|
            0 <= i < players.drop_first().len() ==> players.drop_first()[i] == players[i + 1]);
        lemma_find_by_bus_absent(players.drop_first(), bus_name);
    }
}

proof fn lemma_find_by_bus_at(players: Seq<DescriptorView>, bus_name: Seq<char>, i: int)
    requires
        0 <= i < players.len(),
        players[i].bus_name == bus_name,
        forall|j: int| 0 <= j < i ==> players[j].bus_name != bus_name,
    ensures
        find_by_bus(players, bus_name) == Option::Some(players[i]),
    decreases i,
{
    if i > 0 {
        lemma_find_by_bus_at(players.drop_first(), bus_name, i - 1);
    }
}

proof fn lemma_find_by_bus_found(players: Seq<DescriptorView>, bus_name: Seq<char>)
    requires
        has_player(players, bus_name),
    ensures
        find_by_bus(players, bus_name) matches Option::Some(d) && d.bus_name == bus_name,
    decreases players.len(),
{
    if players.len() > 0 && players[0].bus_name != bus_name {
        let w = choose|i: int| 0 <= i < players.len() && players[i].bus_name == bus_name;
        assert(players.drop_first()[w - 1].bus_name == bus_name);
        lemma_find_by_bus_found(players.drop_first(), bus_name);
    }
}

/// Finds the first discovered player with the given identifier.
pub fn lookup_player(players: &Vec<PlayerDescriptor>, bus_name: &String) -> (r: Option<
    PlayerDescriptor,
>)
    ensures
        r.deep_view() == find_by_bus(players.deep_view(), bus_name@),
{
    let ghost pv = players.deep_view();
    let mut i: usize = 0;
    while i < players.len()
        invariant
            0 <= i <= players.len(),
            pv == players.deep_view(),
            forall|j: int| 0 <= j < i ==> pv[j].bus_name != bus_name@,
        decreases players.len() - i,
    {
        let p: &PlayerDescriptor = &players[i];
        if p.bus_name == *bus_name {
            proof {
                lemma_find_by_bus_at(pv, bus_name@, i as int);
            }
            return Option::Some(p.clone());
        }
        i = i + 1;
    }
    proof {
        lemma_find_by_bus_absent(pv, bus_name@);
    }
    Option::None
}

/// Picks the target player. The choice is a pure function of the inputs:
/// the valid manual choice wins; else the registry's active player; else
/// the last discovered player; else none.
pub fn resolve_player(
    players: &Vec<PlayerDescriptor>,
    active: &Option<PlayerDescriptor>,
    selection: &PlayerSelection,
) -> (r: Option<PlayerDescriptor>)
    ensures
        r.deep_view() == resolve_spec(players.deep_view(), active.deep_view(), selection@),
{
    if selection.mode == PlayerSelectionMode::Manual {
        if let Option::Some(name) = &selection.selected_player_bus_name {
            let found = lookup_player(players, name);
            if found.is_some() {
                return found;
            }
        }
    }
    match active {
        Option::Some(a) => Option::Some(a.clone()),
        Option::None => {
            if players.len() > 0 {
                let p: &PlayerDescriptor = &players[players.len() - 1];
                Option::Some(p.clone())
            } else {
                Option::None
            }
        },
    }
}

/// The stated priority order, spelled out rule by rule: a valid manual
/// choice always wins and carries the chosen identifier; otherwise the
/// registry's active-player signal decides; otherwise the fallback is the
/// last discovered player; and nothing resolves only when nothing is
/// discovered. Resolution is deterministic: it is a function of the three
/// inputs alone, with the fallback tie-break fixed to the most recently
/// enumerated player.
pub proof fn lemma_resolution_priority(
    players: Seq<DescriptorView>,
    active: Option<DescriptorView>,
    sel: SelectionView,
)
    ensures
        (sel.mode == PlayerSelectionMode::Manual && sel.selected is Some && has_player(
            players,
            sel.selected->0,
        )) ==> (resolve_spec(players, active, sel) matches Option::Some(d) && d.bus_name
            == sel.selected->0),
        !(sel.mode == PlayerSelectionMode::Manual && sel.selected is Some && has_player(
            players,
            sel.selected->0,
        )) ==> {
            &&& (active is Some ==> resolve_spec(players, active, sel) == active)
            &&& (active is None && players.len() > 0 ==> resolve_spec(players, active, sel)
                == Option::Some(players.last()))
            &&& (active is None && players.len() == 0 ==> resolve_spec(players, active, sel)
                is None)
        },
{
    if sel.mode == PlayerSelectionMode::Manual && sel.selected is Some {
        if has_player(players, sel.selected->0) {
            lemma_find_by_bus_found(players, sel.selected->0);
        } else {
            assert(forall|i: int|
                0 <= i < players.len() ==> players[i].bus_name != sel.selected->0);
            lemma_find_by_bus_absent(players, sel.selected->0);
        }
    }
}

} // verus!
