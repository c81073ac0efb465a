//! Events of the change stream.

use crate::error::{result_view, Error, ErrorView};
use crate::model::seq_view;
use crate::proto;
use crate::types::permission::{required_token, token_from_proto};
use crate::types::relationship::{RelationshipUpdate, RelationshipUpdateView};
use crate::types::token::{ZedToken, ZedTokenView};
use vstd::prelude::*;

verus! {

/// An event of the change stream: relationship changes and the checkpoint
/// from which the stream can be resumed.
#[derive(Clone, PartialEq)]
pub struct WatchEvent {
    /// The relationship updates in this event.
    pub updates: Vec<RelationshipUpdate>,
    /// Checkpoint token for resuming the watch stream.
    pub checkpoint: ZedToken,
}

/// Mathematical model of [`WatchEvent`].
pub struct WatchEventView {
    pub updates: Seq<RelationshipUpdateView>,
    pub checkpoint: ZedTokenView,
}

/// What decoding the first `n` wire updates yields: the decoded updates in
/// order, or the failure of the first update that fails.
pub open spec fn decode_updates(updates: Seq<proto::base::RelationshipUpdateView>, n: nat) -> Result<
    Seq<RelationshipUpdateView>,
    ErrorView,
>
    decreases n,
{
    if n == 0 || n > updates.len() {
        Ok(Seq::empty())
    } else {
        match decode_updates(updates, (n - 1) as nat) {
            Err(e) => Err(e),
            Ok(prefix) => match RelationshipUpdateView::from_proto(updates[n - 1]) {
                Err(e) => Err(e),
                Ok(u) => Ok(prefix.push(u)),
            },
        }
    }
}

impl WatchEventView {
    /// What decoding one response of the change stream yields. The
    /// checkpoint is required, and its absence or invalidity is reported
    /// before any failure among the updates.
    pub open spec fn from_proto(p: proto::watch::WatchResponseView) -> Result<
        WatchEventView,
        ErrorView,
    > {
        match required_token(p.changes_through, "missing changes_through token"@) {
            Err(e) => Err(e),
            Ok(checkpoint) => match decode_updates(p.updates, p.updates.len()) {
                Err(e) => Err(e),
                Ok(updates) => Ok(WatchEventView { updates, checkpoint }),
            },
        }
    }
}

impl View for WatchEvent {
    type V = WatchEventView;

    open spec fn view(&self) -> WatchEventView {
        WatchEventView { updates: seq_view(self.updates@), checkpoint: self.checkpoint@ }
    }
}

/// A list of wire updates decodes exactly if each of its updates does, and
/// then update by update, in order.
pub proof fn lemma_updates_decode_each(updates: Seq<proto::base::RelationshipUpdateView>, n: nat)
    requires
        n <= updates.len(),
    ensures
        decode_updates(updates, n) is Ok <==> forall|i: int|
            0 <= i < n ==> (#[trigger] RelationshipUpdateView::from_proto(updates[i])) is Ok,
        decode_updates(updates, n) matches Ok(v) ==> v.len() == n && forall|i: int|
            0 <= i < n ==> RelationshipUpdateView::from_proto(updates[i]) == Ok::<
                RelationshipUpdateView,
                ErrorView,
            >(#[trigger] v[i]),
    decreases n,
{
    if n > 0 {
        lemma_updates_decode_each(updates, (n - 1) as nat);
    }
}

/// Wire updates that fail to decode fail as a malformed message.
pub proof fn lemma_updates_decode_failure(
    updates: Seq<proto::base::RelationshipUpdateView>,
    n: nat,
)
    ensures
        decode_updates(updates, n) matches Err(e) ==> e is Serialization,
    decreases n,
{
    if n == 0 || n > updates.len() {
    } else {
        lemma_updates_decode_failure(updates, (n - 1) as nat);
    }
}

/// A wire event that fails to decode fails as a malformed message.
pub proof fn lemma_watch_event_decode_failure(p: proto::watch::WatchResponseView)
    ensures
        WatchEventView::from_proto(p) matches Err(e) ==> e is Serialization,
{
    lemma_updates_decode_failure(p.updates, p.updates.len());
}

/// Once a prefix of the updates fails to decode, every longer prefix fails
/// with the same error.
proof fn lemma_decode_updates_fails(
    updates: Seq<proto::base::RelationshipUpdateView>,
    n: nat,
    m: nat,
)
    requires
        decode_updates(updates, n) is Err,
        n <= m <= updates.len(),
    ensures
        decode_updates(updates, m) == decode_updates(updates, n),
    decreases m,
{
    if n < m {
        lemma_decode_updates_fails(updates, n, (m - 1) as nat);
    }
}

/// Decodes a list of wire updates, stopping at the first that fails.
fn updates_from_proto(updates: Vec<proto::RelationshipUpdate>) -> (r: Result<
    Vec<RelationshipUpdate>,
    Error,
>)
    ensures
        match r {
            Ok(v) => decode_updates(seq_view(updates@), updates@.len()) == Ok::<
                Seq<RelationshipUpdateView>,
                ErrorView,
            >(seq_view(v@)),
            Err(e) => decode_updates(seq_view(updates@), updates@.len()) == Err::<
                Seq<RelationshipUpdateView>,
                ErrorView,
            >(e@),
        },
{
    let ghost wire = seq_view(updates@);
    let mut out: Vec<RelationshipUpdate> = Vec::new();
    assert(seq_view(out@) =~= Seq::<RelationshipUpdateView>::empty());
    for update in iter: updates
        invariant
            wire == seq_view(updates@),
            iter.seq() == updates@,
            decode_updates(wire, iter.index() as nat) == Ok::<
                Seq<RelationshipUpdateView>,
                ErrorView,
            >(seq_view(out@)),
    {
        let ghost before = seq_view(out@);
        match RelationshipUpdate::from_proto(update) {
            Err(e) => {
                proof {
                    lemma_decode_updates_fails(wire, (iter.index() + 1) as nat, wire.len());
                }
                return Err(e);
            },
            Ok(u) => {
                out.push(u);
                assert(seq_view(out@) =~= before.push(u@));
            },
        }
    }
    Ok(out)
}

impl WatchEvent {
    /// Decodes one response of the change stream.
    pub fn from_proto(proto: proto::WatchResponse) -> (r: Result<WatchEvent, Error>)
        ensures
            result_view(r) == WatchEventView::from_proto(proto@),
    {
        let updates = updates_from_proto(proto.updates);
        match token_from_proto(proto.changes_through, "missing changes_through token") {
            Err(e) => Err(e),
            Ok(checkpoint) => match updates {
                Err(e) => Err(e),
                Ok(updates) => Ok(WatchEvent { updates, checkpoint }),
            },
        }
    }
}

} // verus!
