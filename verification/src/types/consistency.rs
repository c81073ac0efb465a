//! Consistency modes for reads.

use crate::proto;
use crate::types::token::{ZedToken, ZedTokenView};
use vstd::prelude::*;

verus! {

/// Controls the consistency guarantees of a read. A request that names no
/// mode leaves the choice to the server, which picks the weakest.
#[derive(Clone, PartialEq, Eq, Hash)]
pub enum Consistency {
    /// The server picks the fastest available snapshot.
    MinimizeLatency,
    /// All data must be at least as fresh as the given token.
    AtLeastAsFresh(ZedToken),
    /// All data must be at exactly the given token's snapshot.
    AtExactSnapshot(ZedToken),
    /// All data must be at the most recent snapshot.
    FullyConsistent,
}

/// Mathematical model of [`Consistency`].
pub enum ConsistencyView {
    MinimizeLatency,
    AtLeastAsFresh(ZedTokenView),
    AtExactSnapshot(ZedTokenView),
    FullyConsistent,
}

impl ConsistencyView {
    /// The wire form of a consistency mode; the requirement is always set.
    pub open spec fn to_proto(self) -> proto::base::ConsistencyView {
        proto::base::ConsistencyView {
            requirement: Some(
                match self {
                    ConsistencyView::MinimizeLatency => proto::base::RequirementView::MinimizeLatency(
                        true,
                    ),
                    ConsistencyView::AtLeastAsFresh(t) => proto::base::RequirementView::AtLeastAsFresh(
                        t.to_proto(),
                    ),
                    ConsistencyView::AtExactSnapshot(
                        t,
                    ) => proto::base::RequirementView::AtExactSnapshot(t.to_proto()),
                    ConsistencyView::FullyConsistent => proto::base::RequirementView::FullyConsistent(
                        true,
                    ),
                },
            ),
        }
    }
}

impl View for Consistency {
    type V = ConsistencyView;

    open spec fn view(&self) -> ConsistencyView {
        match self {
            Consistency::MinimizeLatency => ConsistencyView::MinimizeLatency,
            Consistency::AtLeastAsFresh(t) => ConsistencyView::AtLeastAsFresh(t@),
            Consistency::AtExactSnapshot(t) => ConsistencyView::AtExactSnapshot(t@),
            Consistency::FullyConsistent => ConsistencyView::FullyConsistent,
        }
    }
}

impl Consistency {
    /// The wire form of this consistency mode.
    pub fn to_proto(&self) -> (p: proto::Consistency)
        ensures
            p@ == self@.to_proto(),
    {
        proto::Consistency {
            requirement: Some(
                match self {
                    Consistency::MinimizeLatency => proto::Requirement::MinimizeLatency(true),
                    Consistency::AtLeastAsFresh(t) => proto::Requirement::AtLeastAsFresh(
                        t.to_proto(),
                    ),
                    Consistency::AtExactSnapshot(t) => proto::Requirement::AtExactSnapshot(
                        t.to_proto(),
                    ),
                    Consistency::FullyConsistent => proto::Requirement::FullyConsistent(true),
                },
            ),
        }
    }
}

} // verus!
