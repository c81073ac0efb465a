//! Messages of the bulk operations: bulk check, bulk import, bulk export.

use super::base::{
    Consistency, ConsistencyView, Cursor, CursorView, ObjectReference, ObjectReferenceView,
    PartialCaveatInfo, PartialCaveatInfoView, Relationship, RelationshipFilter,
    RelationshipFilterView, RelationshipView, Status, StatusView, SubjectReference,
    SubjectReferenceView, ZedToken, ZedTokenView,
};
use super::value::{Struct, StructView};
use crate::model::{option_view, seq_view};
use vstd::prelude::*;

verus! {

/// One check of a bulk request.
#[derive(Debug, Clone, PartialEq, Default)]
pub struct CheckBulkPermissionsRequestItem {
    /// The resource to check.
    pub resource: Option<ObjectReference>,
    /// The permission or relation to check.
    pub permission: String,
    /// The subject to check.
    pub subject: Option<SubjectReference>,
    /// Caveat context for the evaluation.
    pub context: Option<Struct>,
}

/// Mathematical model of [`CheckBulkPermissionsRequestItem`].
pub struct CheckBulkPermissionsRequestItemView {
    pub resource: Option<ObjectReferenceView>,
    pub permission: Seq<char>,
    pub subject: Option<SubjectReferenceView>,
    pub context: Option<StructView>,
}

impl View for CheckBulkPermissionsRequestItem {
    type V = CheckBulkPermissionsRequestItemView;

    open spec fn view(&self) -> CheckBulkPermissionsRequestItemView {
        CheckBulkPermissionsRequestItemView {
            resource: option_view(self.resource),
            permission: self.permission@,
            subject: option_view(self.subject),
            context: option_view(self.context),
        }
    }
}

/// Checks several permissions in one round trip.
#[derive(Debug, Clone, PartialEq, Default)]
pub struct CheckBulkPermissionsRequest {
    /// The consistency mode; absent for the server default.
    pub consistency: Option<Consistency>,
    /// The checks to run.
    pub items: Vec<CheckBulkPermissionsRequestItem>,
    /// Whether the server should trace the evaluations.
    pub with_tracing: bool,
}

/// Mathematical model of [`CheckBulkPermissionsRequest`].
pub struct CheckBulkPermissionsRequestView {
    pub consistency: Option<ConsistencyView>,
    pub items: Seq<CheckBulkPermissionsRequestItemView>,
    pub with_tracing: bool,
}

impl View for CheckBulkPermissionsRequest {
    type V = CheckBulkPermissionsRequestView;

    open spec fn view(&self) -> CheckBulkPermissionsRequestView {
        CheckBulkPermissionsRequestView {
            consistency: option_view(self.consistency),
            items: seq_view(self.items@),
            with_tracing: self.with_tracing,
        }
    }
}

/// The answer to one check of a bulk request.
#[derive(Debug, Clone, PartialEq, Default)]
pub struct CheckBulkPermissionsResponseItem {
    /// The three-state indicator: 1 denied, 2 allowed, 3 conditional.
    pub permissionship: i32,
    /// For a conditional answer, the missing context.
    pub partial_caveat_info: Option<PartialCaveatInfo>,
}

/// Mathematical model of [`CheckBulkPermissionsResponseItem`].
pub struct CheckBulkPermissionsResponseItemView {
    pub permissionship: i32,
    pub partial_caveat_info: Option<PartialCaveatInfoView>,
}

impl View for CheckBulkPermissionsResponseItem {
    type V = CheckBulkPermissionsResponseItemView;

    open spec fn view(&self) -> CheckBulkPermissionsResponseItemView {
        CheckBulkPermissionsResponseItemView {
            permissionship: self.permissionship,
            partial_caveat_info: option_view(self.partial_caveat_info),
        }
    }
}

/// What the server reports for one check of a bulk request: an answer or a
/// status.
#[derive(Debug, Clone, PartialEq)]
pub enum PairResponse {
    /// The check ran; this is its answer.
    Item(CheckBulkPermissionsResponseItem),
    /// The check failed with this status.
    Error(Status),
}

/// Mathematical model of [`PairResponse`].
pub enum PairResponseView {
    Item(CheckBulkPermissionsResponseItemView),
    Error(StatusView),
}

impl View for PairResponse {
    type V = PairResponseView;

    open spec fn view(&self) -> PairResponseView {
        match self {
            PairResponse::Item(x) => PairResponseView::Item(x@),
            PairResponse::Error(x) => PairResponseView::Error(x@),
        }
    }
}

/// One check of a bulk request together with what the server reports for it.
#[derive(Debug, Clone, PartialEq, Default)]
pub struct CheckBulkPermissionsPair {
    /// The check, echoed by the server.
    pub request: Option<CheckBulkPermissionsRequestItem>,
    /// The answer or the failure.
    pub response: Option<PairResponse>,
}

/// Mathematical model of [`CheckBulkPermissionsPair`].
pub struct CheckBulkPermissionsPairView {
    pub request: Option<CheckBulkPermissionsRequestItemView>,
    pub response: Option<PairResponseView>,
}

impl View for CheckBulkPermissionsPair {
    type V = CheckBulkPermissionsPairView;

    open spec fn view(&self) -> CheckBulkPermissionsPairView {
        CheckBulkPermissionsPairView {
            request: option_view(self.request),
            response: option_view(self.response),
        }
    }
}

/// Answer to a bulk check: one pair per requested check, in request order.
#[derive(Debug, Clone, PartialEq, Default)]
pub struct CheckBulkPermissionsResponse {
    /// The revision at which the checks ran.
    pub checked_at: Option<ZedToken>,
    /// The pairs, aligned with the request.
    pub pairs: Vec<CheckBulkPermissionsPair>,
}

/// Mathematical model of [`CheckBulkPermissionsResponse`].
pub struct CheckBulkPermissionsResponseView {
    pub checked_at: Option<ZedTokenView>,
    pub pairs: Seq<CheckBulkPermissionsPairView>,
}

impl View for CheckBulkPermissionsResponse {
    type V = CheckBulkPermissionsResponseView;

    open spec fn view(&self) -> CheckBulkPermissionsResponseView {
        CheckBulkPermissionsResponseView {
            checked_at: option_view(self.checked_at),
            pairs: seq_view(self.pairs@),
        }
    }
}

/// One message of a bulk import: a batch of relationships to load.
#[derive(Debug, Clone, PartialEq, Default)]
pub struct ImportBulkRelationshipsRequest {
    /// The relationships of this batch.
    pub relationships: Vec<Relationship>,
}

/// Mathematical model of [`ImportBulkRelationshipsRequest`].
pub struct ImportBulkRelationshipsRequestView {
    pub relationships: Seq<RelationshipView>,
}

impl View for ImportBulkRelationshipsRequest {
    type V = ImportBulkRelationshipsRequestView;

    open spec fn view(&self) -> ImportBulkRelationshipsRequestView {
        ImportBulkRelationshipsRequestView {
            relationships: seq_view(self.relationships@),
        }
    }
}

/// Answer to a bulk import.
#[derive(Debug, Clone, PartialEq, Default)]
pub struct ImportBulkRelationshipsResponse {
    /// How many relationships were loaded.
    pub num_loaded: u64,
}

/// Mathematical model of [`ImportBulkRelationshipsResponse`].
pub struct ImportBulkRelationshipsResponseView {
    pub num_loaded: u64,
}

impl View for ImportBulkRelationshipsResponse {
    type V = ImportBulkRelationshipsResponseView;

    open spec fn view(&self) -> ImportBulkRelationshipsResponseView {
        ImportBulkRelationshipsResponseView {
            num_loaded: self.num_loaded,
        }
    }
}

/// Asks for a bulk export of relationships.
#[derive(Debug, Clone, PartialEq, Default)]
pub struct ExportBulkRelationshipsRequest {
    /// The consistency mode; absent for the server default.
    pub consistency: Option<Consistency>,
    /// Upper bound on results, or zero for none.
    pub optional_limit: u32,
    /// Where to resume a paged export.
    pub optional_cursor: Option<Cursor>,
    /// The filter selecting what to export.
    pub optional_relationship_filter: Option<RelationshipFilter>,
}

/// Mathematical model of [`ExportBulkRelationshipsRequest`].
pub struct ExportBulkRelationshipsRequestView {
    pub consistency: Option<ConsistencyView>,
    pub optional_limit: u32,
    pub optional_cursor: Option<CursorView>,
    pub optional_relationship_filter: Option<RelationshipFilterView>,
}

impl View for ExportBulkRelationshipsRequest {
    type V = ExportBulkRelationshipsRequestView;

    open spec fn view(&self) -> ExportBulkRelationshipsRequestView {
        ExportBulkRelationshipsRequestView {
            consistency: option_view(self.consistency),
            optional_limit: self.optional_limit,
            optional_cursor: option_view(self.optional_cursor),
            optional_relationship_filter: option_view(self.optional_relationship_filter),
        }
    }
}

/// One batch of a bulk export.
#[derive(Debug, Clone, PartialEq, Default)]
pub struct ExportBulkRelationshipsResponse {
    /// Cursor pointing after this batch.
    pub after_result_cursor: Option<Cursor>,
    /// The relationships of this batch.
    pub relationships: Vec<Relationship>,
}

/// Mathematical model of [`ExportBulkRelationshipsResponse`].
pub struct ExportBulkRelationshipsResponseView {
    pub after_result_cursor: Option<CursorView>,
    pub relationships: Seq<RelationshipView>,
}

impl View for ExportBulkRelationshipsResponse {
    type V = ExportBulkRelationshipsResponseView;

    open spec fn view(&self) -> ExportBulkRelationshipsResponseView {
        ExportBulkRelationshipsResponseView {
            after_result_cursor: option_view(self.after_result_cursor),
            relationships: seq_view(self.relationships@),
        }
    }
}

} // verus!
