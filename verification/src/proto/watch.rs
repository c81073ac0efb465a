//! Messages of the watch service.

use super::base::{
    RelationshipFilter, RelationshipFilterView, RelationshipUpdate, RelationshipUpdateView, ZedToken,
    ZedTokenView,
};
use crate::model::{option_view, seq_view};
use vstd::prelude::*;

verus! {

/// Asks for the stream of relationship changes.
#[derive(Debug, Clone, PartialEq, Default)]
pub struct WatchRequest {
    /// The object types to watch; empty for all.
    pub optional_object_types: Vec<String>,
    /// The revision after which to start; absent for now.
    pub optional_start_cursor: Option<ZedToken>,
    /// Filters narrowing the changes reported.
    pub optional_relationship_filters: Vec<RelationshipFilter>,
    /// The kinds of update to report; empty for the server default.
    pub optional_update_kinds: Vec<i32>,
}

/// Mathematical model of [`WatchRequest`].
pub struct WatchRequestView {
    pub optional_object_types: Seq<Seq<char>>,
    pub optional_start_cursor: Option<ZedTokenView>,
    pub optional_relationship_filters: Seq<RelationshipFilterView>,
    pub optional_update_kinds: Seq<i32>,
}

impl View for WatchRequest {
    type V = WatchRequestView;

    open spec fn view(&self) -> WatchRequestView {
        WatchRequestView {
            optional_object_types: seq_view(self.optional_object_types@),
            optional_start_cursor: option_view(self.optional_start_cursor),
            optional_relationship_filters: seq_view(self.optional_relationship_filters@),
            optional_update_kinds: self.optional_update_kinds@,
        }
    }
}

/// One event of the change stream.
#[derive(Debug, Clone, PartialEq, Default)]
pub struct WatchResponse {
    /// The changes of this event.
    pub updates: Vec<RelationshipUpdate>,
    /// The revision through which changes have been reported.
    pub changes_through: Option<ZedToken>,
}

/// Mathematical model of [`WatchResponse`].
pub struct WatchResponseView {
    pub updates: Seq<RelationshipUpdateView>,
    pub changes_through: Option<ZedTokenView>,
}

impl View for WatchResponse {
    type V = WatchResponseView;

    open spec fn view(&self) -> WatchResponseView {
        WatchResponseView {
            updates: seq_view(self.updates@),
            changes_through: option_view(self.changes_through),
        }
    }
}

} // verus!
