//! The two process-wide stores: the published-snapshot store with its
//! subscriber fan-out, and the selection-policy store. Each is the single
//! writer of its value; callers that share one across tasks wrap it in a
//! lock of their own.

use vstd::prelude::*;

verus! {

use crate::model::{BridgeState, PlayerSelection, PlayerSelectionMode, SelectionView, SnapshotView,
    default_snapshot_view};

/// How many pending snapshots a slow subscriber may buffer before its
/// oldest are dropped.
pub const SUBSCRIBER_BUFFER: usize = 64;

#[verifier::external_type_specification]
#[verifier::external_body]
#[verifier::reject_recursive_types(T)]
pub struct ExBroadcastSender<T>(tokio::sync::broadcast::Sender<T>);

#[verifier::external_type_specification]
#[verifier::external_body]
#[verifier::reject_recursive_types(T)]
pub struct ExBroadcastReceiver<T>(tokio::sync::broadcast::Receiver<T>);

/// Relies on `tokio::sync::broadcast::channel`: creates the fan-out channel
/// that carries published snapshots to subscribers. The capacity bounds each
/// subscriber's buffer; beyond it the channel drops that subscriber's oldest
/// pending values rather than block the sender. It panics only on a zero or
/// oversized capacity, which the bound here rules out.
#[verifier::external_body]
fn snapshot_channel(capacity: usize) -> tokio::sync::broadcast::Sender<BridgeState>
    requires
        0 < capacity <= usize::MAX / 2,
{
    tokio::sync::broadcast::channel(capacity).0
}

/// Relies on `tokio::sync::broadcast::Sender::send`: hands one value to
/// every current subscriber's buffer, in send order, without blocking. Its
/// result only counts the current subscribers, and is ignored here: with no
/// subscriber the value is simply dropped.
#[verifier::external_body]
fn publish_snapshot(tx: &tokio::sync::broadcast::Sender<BridgeState>, snapshot: BridgeState) {
    let _ = tx.send(snapshot);
}

/// Holds the latest published snapshot and fans every update out to the
/// subscribers. There is one logical publisher: the poll loop.
pub struct StateStore {
    current: BridgeState,
    tx: tokio::sync::broadcast::Sender<BridgeState>,
    history: Ghost<Seq<SnapshotView>>,
}

/// Mathematical value of a `StateStore`: the snapshot it serves and the
/// sequence of values published so far, oldest first.
#[verifier::ext_equal]
pub struct StoreView {
    pub current: SnapshotView,
    pub published: Seq<SnapshotView>,
}

impl View for StateStore {
    type V = StoreView;

    closed spec fn view(&self) -> StoreView {
        StoreView { current: self.current@, published: self.history@ }
    }
}

/// The timestamp a store records: never earlier than the one it already
/// holds.
pub open spec fn monotone_ts(held: u64, offered: u64) -> u64 {
    if offered < held {
        held
    } else {
        offered
    }
}

impl StateStore {
    /// Publication well-formedness: the served snapshot is the last
    /// published value, before any publication it is the idle default, and
    /// timestamps never decrease across successive stores.
    pub open spec fn wf(self) -> bool {
        &&& self@.published.len() > 0 ==> self@.current == self@.published.last()
        &&& self@.published.len() == 0 ==> self@.current == default_snapshot_view()
        &&& forall|i: int, j: int|
            #![trigger self@.published[i], self@.published[j]]
            0 <= i <= j < self@.published.len() ==> self@.published[i].updated_at_ms
                <= self@.published[j].updated_at_ms
    }

    /// A fresh store: it serves the idle default and has published nothing.
    pub fn new() -> (r: StateStore)
        ensures
            r@.current == default_snapshot_view(),
            r@.published == Seq::<SnapshotView>::empty(),
            r.wf(),
    {
        StateStore {
            current: BridgeState::default(),
            tx: snapshot_channel(SUBSCRIBER_BUFFER),
            history: Ghost(Seq::empty()),
        }
    }

    /// Replaces the stored snapshot and hands the stored value to every
    /// current subscriber, in publish order. Timestamps never decrease
    /// across successive stores: a value stamped earlier than the one held
    /// is recorded with the held timestamp instead. Publication is never
    /// blocked by a subscriber: a slow one loses its oldest pending values.
    pub fn update(&mut self, next: BridgeState)
        ensures
            final(self)@.current == (SnapshotView {
                updated_at_ms: monotone_ts(old(self)@.current.updated_at_ms, next@.updated_at_ms),
                ..next@
            }),
            final(self)@.published == old(self)@.published.push(final(self)@.current),
            old(self).wf() ==> final(self).wf(),
    {
        let mut stored = next;
        if stored.updated_at_ms < self.current.updated_at_ms {
            stored.updated_at_ms = self.current.updated_at_ms;
        }
        let copy = stored.clone();
        self.history = Ghost(self.history@.push(stored@));
        self.current = stored;
        publish_snapshot(&self.tx, copy);
        proof {
            let opub = old(self)@.published;
            let npub = self@.published;
            if old(self).wf() {
                assert forall|i: int, j: int|
                    #![trigger npub[i], npub[j]]
                    0 <= i <= j < npub.len() implies npub[i].updated_at_ms
                    <= npub[j].updated_at_ms by {
                    if j < npub.len() - 1 {
                        assert(npub[i] == opub[i] && npub[j] == opub[j]);
                    } else if i < j {
                        assert(npub[i] == opub[i]);
                        assert(opub[i].updated_at_ms <= opub[opub.len() - 1].updated_at_ms);
                    }
                }
            }
        }
    }

    /// Returns the current snapshot without disturbing the publisher.
    pub fn snapshot(&self) -> (r: BridgeState)
        ensures
            r@ == self@.current,
    {
        self.current.clone()
    }

    /// Relies on `tokio::sync::broadcast::Sender::subscribe`: a live feed
    /// that receives every update published after this call, in publish
    /// order, and replays none from before it; when more than the buffer
    /// bound pile up unread, that feed's oldest pending values are dropped.
    #[verifier::external_body]
    pub fn subscribe(&self) -> tokio::sync::broadcast::Receiver<BridgeState> {
        self.tx.subscribe()
    }
}

/// The law of publication: a well-formed store serves exactly the most
/// recently published snapshot, so after any run of updates the served
/// value is the last one published.
pub proof fn lemma_snapshot_is_latest(s: StateStore)
    requires
        s.wf(),
        s@.published.len() > 0,
    ensures
        s@.current == s@.published.last(),
{
}

/// The law of timestamps: in a well-formed store the publish timestamps
/// never decrease across successive stores.
pub proof fn lemma_timestamps_nondecreasing(s: StateStore, i: int, j: int)
    requires
        s.wf(),
        0 <= i <= j < s@.published.len(),
    ensures
        s@.published[i].updated_at_ms <= s@.published[j].updated_at_ms,
{
}

/// Holds the current selection policy; replaced whole on update, so a
/// reader always sees one consistent policy value.
pub struct SelectionStore {
    current: PlayerSelection,
}

impl View for SelectionStore {
    type V = SelectionView;

    closed spec fn view(&self) -> SelectionView {
        self.current@
    }
}

impl SelectionStore {
    /// A fresh store: automatic mode, no chosen player.
    pub fn new() -> (r: SelectionStore)
        ensures
            r@.mode == PlayerSelectionMode::Auto,
            r@.selected is None,
    {
        SelectionStore {
            current: PlayerSelection {
                mode: PlayerSelectionMode::Auto,
                selected_player_bus_name: Option::None,
            },
        }
    }

    /// Replaces the policy whole: the last write wins, with no merging.
    pub fn update(&mut self, next: PlayerSelection)
        ensures
            final(self)@ == next@,
    {
        self.current = next;
    }

    /// Returns the current policy as one consistent value.
    pub fn snapshot(&self) -> (r: PlayerSelection)
        ensures
            r@ == self@,
    {
        self.current.clone()
    }
}

} // verus!
