//! Messages of the permissions service: check, write, delete, read, lookup
//! and tree expansion.

use super::base::{
    Consistency, ConsistencyView, Cursor, CursorView, ObjectReference, ObjectReferenceView,
    PartialCaveatInfo, PartialCaveatInfoView, Precondition, PreconditionView, Relationship,
    RelationshipFilter, RelationshipFilterView, RelationshipUpdate, RelationshipUpdateView,
    RelationshipView, SubjectReference, SubjectReferenceView, ZedToken, ZedTokenView,
};
use super::tree::{PermissionRelationshipTree, PermissionRelationshipTreeView};
use super::value::{Struct, StructView};
use crate::model::{option_view, seq_view};
use vstd::prelude::*;

verus! {

/// Asks whether a subject has a permission on a resource.
#[derive(Debug, Clone, PartialEq, Default)]
pub struct CheckPermissionRequest {
    /// The consistency mode; absent for the server default.
    pub consistency: Option<Consistency>,
    /// The resource to check.
    pub resource: Option<ObjectReference>,
    /// The permission or relation to check.
    pub permission: String,
    /// The subject to check.
    pub subject: Option<SubjectReference>,
    /// Caveat context for the evaluation.
    pub context: Option<Struct>,
    /// Whether the server should trace the evaluation.
    pub with_tracing: bool,
}

/// Mathematical model of [`CheckPermissionRequest`].
pub struct CheckPermissionRequestView {
    pub consistency: Option<ConsistencyView>,
    pub resource: Option<ObjectReferenceView>,
    pub permission: Seq<char>,
    pub subject: Option<SubjectReferenceView>,
    pub context: Option<StructView>,
    pub with_tracing: bool,
}

impl View for CheckPermissionRequest {
    type V = CheckPermissionRequestView;

    open spec fn view(&self) -> CheckPermissionRequestView {
        CheckPermissionRequestView {
            consistency: option_view(self.consistency),
            resource: option_view(self.resource),
            permission: self.permission@,
            subject: option_view(self.subject),
            context: option_view(self.context),
            with_tracing: self.with_tracing,
        }
    }
}

/// Answer to a permission check.
#[derive(Debug, Clone, PartialEq, Default)]
pub struct CheckPermissionResponse {
    /// The revision at which the check ran.
    pub checked_at: Option<ZedToken>,
    /// The three-state indicator: 1 denied, 2 allowed, 3 conditional.
    pub permissionship: i32,
    /// For a conditional answer, the missing context.
    pub partial_caveat_info: Option<PartialCaveatInfo>,
}

/// Mathematical model of [`CheckPermissionResponse`].
pub struct CheckPermissionResponseView {
    pub checked_at: Option<ZedTokenView>,
    pub permissionship: i32,
    pub partial_caveat_info: Option<PartialCaveatInfoView>,
}

impl View for CheckPermissionResponse {
    type V = CheckPermissionResponseView;

    open spec fn view(&self) -> CheckPermissionResponseView {
        CheckPermissionResponseView {
            checked_at: option_view(self.checked_at),
            permissionship: self.permissionship,
            partial_caveat_info: option_view(self.partial_caveat_info),
        }
    }
}

/// Writes a batch of relationship updates atomically.
#[derive(Debug, Clone, PartialEq, Default)]
pub struct WriteRelationshipsRequest {
    /// The updates to apply.
    pub updates: Vec<RelationshipUpdate>,
    /// Preconditions that must hold for the write to commit.
    pub optional_preconditions: Vec<Precondition>,
    /// Metadata recorded with the transaction.
    pub optional_transaction_metadata: Option<Struct>,
}

/// Mathematical model of [`WriteRelationshipsRequest`].
pub struct WriteRelationshipsRequestView {
    pub updates: Seq<RelationshipUpdateView>,
    pub optional_preconditions: Seq<PreconditionView>,
    pub optional_transaction_metadata: Option<StructView>,
}

impl View for WriteRelationshipsRequest {
    type V = WriteRelationshipsRequestView;

    open spec fn view(&self) -> WriteRelationshipsRequestView {
        WriteRelationshipsRequestView {
            updates: seq_view(self.updates@),
            optional_preconditions: seq_view(self.optional_preconditions@),
            optional_transaction_metadata: option_view(self.optional_transaction_metadata),
        }
    }
}

/// Answer to a write.
#[derive(Debug, Clone, PartialEq, Default)]
pub struct WriteRelationshipsResponse {
    /// The revision at which the write committed.
    pub written_at: Option<ZedToken>,
}

/// Mathematical model of [`WriteRelationshipsResponse`].
pub struct WriteRelationshipsResponseView {
    pub written_at: Option<ZedTokenView>,
}

impl View for WriteRelationshipsResponse {
    type V = WriteRelationshipsResponseView;

    open spec fn view(&self) -> WriteRelationshipsResponseView {
        WriteRelationshipsResponseView {
            written_at: option_view(self.written_at),
        }
    }
}

/// Deletes every relationship that matches a filter.
#[derive(Debug, Clone, PartialEq, Default)]
pub struct DeleteRelationshipsRequest {
    /// The filter selecting what to delete.
    pub relationship_filter: Option<RelationshipFilter>,
    /// Preconditions that must hold for the delete to commit.
    pub optional_preconditions: Vec<Precondition>,
    /// Upper bound on deletions, or zero for none.
    pub optional_limit: u32,
    /// Whether reaching the limit deletes partially instead of failing.
    pub optional_allow_partial_deletions: bool,
    /// Metadata recorded with the transaction.
    pub optional_transaction_metadata: Option<Struct>,
}

/// Mathematical model of [`DeleteRelationshipsRequest`].
pub struct DeleteRelationshipsRequestView {
    pub relationship_filter: Option<RelationshipFilterView>,
    pub optional_preconditions: Seq<PreconditionView>,
    pub optional_limit: u32,
    pub optional_allow_partial_deletions: bool,
    pub optional_transaction_metadata: Option<StructView>,
}

impl View for DeleteRelationshipsRequest {
    type V = DeleteRelationshipsRequestView;

    open spec fn view(&self) -> DeleteRelationshipsRequestView {
        DeleteRelationshipsRequestView {
            relationship_filter: option_view(self.relationship_filter),
            optional_preconditions: seq_view(self.optional_preconditions@),
            optional_limit: self.optional_limit,
            optional_allow_partial_deletions: self.optional_allow_partial_deletions,
            optional_transaction_metadata: option_view(self.optional_transaction_metadata),
        }
    }
}

/// Answer to a delete.
#[derive(Debug, Clone, PartialEq, Default)]
pub struct DeleteRelationshipsResponse {
    /// The revision at which the delete committed.
    pub deleted_at: Option<ZedToken>,
    /// Whether the deletion completed: 1 complete, 2 partial.
    pub deletion_progress: i32,
    /// How many relationships were deleted.
    pub relationships_deleted_count: u64,
}

/// Mathematical model of [`DeleteRelationshipsResponse`].
pub struct DeleteRelationshipsResponseView {
    pub deleted_at: Option<ZedTokenView>,
    pub deletion_progress: i32,
    pub relationships_deleted_count: u64,
}

impl View for DeleteRelationshipsResponse {
    type V = DeleteRelationshipsResponseView;

    open spec fn view(&self) -> DeleteRelationshipsResponseView {
        DeleteRelationshipsResponseView {
            deleted_at: option_view(self.deleted_at),
            deletion_progress: self.deletion_progress,
            relationships_deleted_count: self.relationships_deleted_count,
        }
    }
}

/// Reads the relationships that match a filter.
#[derive(Debug, Clone, PartialEq, Default)]
pub struct ReadRelationshipsRequest {
    /// The consistency mode; absent for the server default.
    pub consistency: Option<Consistency>,
    /// The filter selecting what to read.
    pub relationship_filter: Option<RelationshipFilter>,
    /// Upper bound on results, or zero for none.
    pub optional_limit: u32,
    /// Where to resume a paged read.
    pub optional_cursor: Option<Cursor>,
}

/// Mathematical model of [`ReadRelationshipsRequest`].
pub struct ReadRelationshipsRequestView {
    pub consistency: Option<ConsistencyView>,
    pub relationship_filter: Option<RelationshipFilterView>,
    pub optional_limit: u32,
    pub optional_cursor: Option<CursorView>,
}

impl View for ReadRelationshipsRequest {
    type V = ReadRelationshipsRequestView;

    open spec fn view(&self) -> ReadRelationshipsRequestView {
        ReadRelationshipsRequestView {
            consistency: option_view(self.consistency),
            relationship_filter: option_view(self.relationship_filter),
            optional_limit: self.optional_limit,
            optional_cursor: option_view(self.optional_cursor),
        }
    }
}

/// One relationship of a read.
#[derive(Debug, Clone, PartialEq, Default)]
pub struct ReadRelationshipsResponse {
    /// The revision at which the relationship was read.
    pub read_at: Option<ZedToken>,
    /// The relationship.
    pub relationship: Option<Relationship>,
    /// Cursor pointing after this result.
    pub after_result_cursor: Option<Cursor>,
}

/// Mathematical model of [`ReadRelationshipsResponse`].
pub struct ReadRelationshipsResponseView {
    pub read_at: Option<ZedTokenView>,
    pub relationship: Option<RelationshipView>,
    pub after_result_cursor: Option<CursorView>,
}

impl View for ReadRelationshipsResponse {
    type V = ReadRelationshipsResponseView;

    open spec fn view(&self) -> ReadRelationshipsResponseView {
        ReadRelationshipsResponseView {
            read_at: option_view(self.read_at),
            relationship: option_view(self.relationship),
            after_result_cursor: option_view(self.after_result_cursor),
        }
    }
}

/// Looks up the resources of a type that a subject can access.
#[derive(Debug, Clone, PartialEq, Default)]
pub struct LookupResourcesRequest {
    /// The consistency mode; absent for the server default.
    pub consistency: Option<Consistency>,
    /// The type of resource to look up.
    pub resource_object_type: String,
    /// The permission or relation to look up.
    pub permission: String,
    /// The subject whose access is asked for.
    pub subject: Option<SubjectReference>,
    /// Caveat context for the evaluation.
    pub context: Option<Struct>,
    /// Upper bound on results, or zero for none.
    pub optional_limit: u32,
    /// Where to resume a paged lookup.
    pub optional_cursor: Option<Cursor>,
}

/// Mathematical model of [`LookupResourcesRequest`].
pub struct LookupResourcesRequestView {
    pub consistency: Option<ConsistencyView>,
    pub resource_object_type: Seq<char>,
    pub permission: Seq<char>,
    pub subject: Option<SubjectReferenceView>,
    pub context: Option<StructView>,
    pub optional_limit: u32,
    pub optional_cursor: Option<CursorView>,
}

impl View for LookupResourcesRequest {
    type V = LookupResourcesRequestView;

    open spec fn view(&self) -> LookupResourcesRequestView {
        LookupResourcesRequestView {
            consistency: option_view(self.consistency),
            resource_object_type: self.resource_object_type@,
            permission: self.permission@,
            subject: option_view(self.subject),
            context: option_view(self.context),
            optional_limit: self.optional_limit,
            optional_cursor: option_view(self.optional_cursor),
        }
    }
}

/// One resource found by a lookup.
#[derive(Debug, Clone, PartialEq, Default)]
pub struct LookupResourcesResponse {
    /// The revision at which the resource was found.
    pub looked_up_at: Option<ZedToken>,
    /// The id of the resource.
    pub resource_object_id: String,
    /// The two-state indicator: 1 allowed, 2 conditional.
    pub permissionship: i32,
    /// For a conditional entry, the missing context.
    pub partial_caveat_info: Option<PartialCaveatInfo>,
    /// Cursor pointing after this result.
    pub after_result_cursor: Option<Cursor>,
}

/// Mathematical model of [`LookupResourcesResponse`].
pub struct LookupResourcesResponseView {
    pub looked_up_at: Option<ZedTokenView>,
    pub resource_object_id: Seq<char>,
    pub permissionship: i32,
    pub partial_caveat_info: Option<PartialCaveatInfoView>,
    pub after_result_cursor: Option<CursorView>,
}

impl View for LookupResourcesResponse {
    type V = LookupResourcesResponseView;

    open spec fn view(&self) -> LookupResourcesResponseView {
        LookupResourcesResponseView {
            looked_up_at: option_view(self.looked_up_at),
            resource_object_id: self.resource_object_id@,
            permissionship: self.permissionship,
            partial_caveat_info: option_view(self.partial_caveat_info),
            after_result_cursor: option_view(self.after_result_cursor),
        }
    }
}

/// Looks up the subjects of a type that can access a resource.
#[derive(Debug, Clone, PartialEq, Default)]
pub struct LookupSubjectsRequest {
    /// The consistency mode; absent for the server default.
    pub consistency: Option<Consistency>,
    /// The resource whose subjects are asked for.
    pub resource: Option<ObjectReference>,
    /// The permission or relation to look up.
    pub permission: String,
    /// The type of subject to look up.
    pub subject_object_type: String,
    /// The relation on the subjects, or the empty string.
    pub optional_subject_relation: String,
    /// Caveat context for the evaluation.
    pub context: Option<Struct>,
    /// Upper bound on concrete results, or zero for none.
    pub optional_concrete_limit: u32,
    /// Where to resume a paged lookup.
    pub optional_cursor: Option<Cursor>,
    /// How wildcards are treated; zero for the server default.
    pub wildcard_option: i32,
}

/// Mathematical model of [`LookupSubjectsRequest`].
pub struct LookupSubjectsRequestView {
    pub consistency: Option<ConsistencyView>,
    pub resource: Option<ObjectReferenceView>,
    pub permission: Seq<char>,
    pub subject_object_type: Seq<char>,
    pub optional_subject_relation: Seq<char>,
    pub context: Option<StructView>,
    pub optional_concrete_limit: u32,
    pub optional_cursor: Option<CursorView>,
    pub wildcard_option: i32,
}

impl View for LookupSubjectsRequest {
    type V = LookupSubjectsRequestView;

    open spec fn view(&self) -> LookupSubjectsRequestView {
        LookupSubjectsRequestView {
            consistency: option_view(self.consistency),
            resource: option_view(self.resource),
            permission: self.permission@,
            subject_object_type: self.subject_object_type@,
            optional_subject_relation: self.optional_subject_relation@,
            context: option_view(self.context),
            optional_concrete_limit: self.optional_concrete_limit,
            optional_cursor: option_view(self.optional_cursor),
            wildcard_option: self.wildcard_option,
        }
    }
}

/// A subject found by a lookup, with its permission status.
#[derive(Debug, Clone, PartialEq, Default)]
pub struct ResolvedSubject {
    /// The id of the subject.
    pub subject_object_id: String,
    /// The two-state indicator: 1 allowed, 2 conditional.
    pub permissionship: i32,
    /// For a conditional entry, the missing context.
    pub partial_caveat_info: Option<PartialCaveatInfo>,
}

/// Mathematical model of [`ResolvedSubject`].
pub struct ResolvedSubjectView {
    pub subject_object_id: Seq<char>,
    pub permissionship: i32,
    pub partial_caveat_info: Option<PartialCaveatInfoView>,
}

impl View for ResolvedSubject {
    type V = ResolvedSubjectView;

    open spec fn view(&self) -> ResolvedSubjectView {
        ResolvedSubjectView {
            subject_object_id: self.subject_object_id@,
            permissionship: self.permissionship,
            partial_caveat_info: option_view(self.partial_caveat_info),
        }
    }
}

/// One subject found by a lookup. Older servers fill the four fields kept for
/// them and leave `subject` absent.
#[derive(Debug, Clone, PartialEq, Default)]
pub struct LookupSubjectsResponse {
    /// The revision at which the subject was found.
    pub looked_up_at: Option<ZedToken>,
    /// Kept for older servers: the id of the subject.
    pub subject_object_id: String,
    /// Kept for older servers: ids excluded from a wildcard.
    pub excluded_subject_ids: Vec<String>,
    /// Kept for older servers: the two-state indicator.
    pub permissionship: i32,
    /// Kept for older servers: the missing context.
    pub partial_caveat_info: Option<PartialCaveatInfo>,
    /// The subject found.
    pub subject: Option<ResolvedSubject>,
    /// Subjects excluded from a wildcard.
    pub excluded_subjects: Vec<ResolvedSubject>,
    /// Cursor pointing after this result.
    pub after_result_cursor: Option<Cursor>,
}

/// Mathematical model of [`LookupSubjectsResponse`].
pub struct LookupSubjectsResponseView {
    pub looked_up_at: Option<ZedTokenView>,
    pub subject_object_id: Seq<char>,
    pub excluded_subject_ids: Seq<Seq<char>>,
    pub permissionship: i32,
    pub partial_caveat_info: Option<PartialCaveatInfoView>,
    pub subject: Option<ResolvedSubjectView>,
    pub excluded_subjects: Seq<ResolvedSubjectView>,
    pub after_result_cursor: Option<CursorView>,
}

impl View for LookupSubjectsResponse {
    type V = LookupSubjectsResponseView;

    open spec fn view(&self) -> LookupSubjectsResponseView {
        LookupSubjectsResponseView {
            looked_up_at: option_view(self.looked_up_at),
            subject_object_id: self.subject_object_id@,
            excluded_subject_ids: seq_view(self.excluded_subject_ids@),
            permissionship: self.permissionship,
            partial_caveat_info: option_view(self.partial_caveat_info),
            subject: option_view(self.subject),
            excluded_subjects: seq_view(self.excluded_subjects@),
            after_result_cursor: option_view(self.after_result_cursor),
        }
    }
}

/// Asks for the tree by which a permission is derived.
#[derive(Debug, Clone, PartialEq, Default)]
pub struct ExpandPermissionTreeRequest {
    /// The consistency mode; absent for the server default.
    pub consistency: Option<Consistency>,
    /// The resource to expand.
    pub resource: Option<ObjectReference>,
    /// The permission or relation to expand.
    pub permission: String,
}

/// Mathematical model of [`ExpandPermissionTreeRequest`].
pub struct ExpandPermissionTreeRequestView {
    pub consistency: Option<ConsistencyView>,
    pub resource: Option<ObjectReferenceView>,
    pub permission: Seq<char>,
}

impl View for ExpandPermissionTreeRequest {
    type V = ExpandPermissionTreeRequestView;

    open spec fn view(&self) -> ExpandPermissionTreeRequestView {
        ExpandPermissionTreeRequestView {
            consistency: option_view(self.consistency),
            resource: option_view(self.resource),
            permission: self.permission@,
        }
    }
}

/// Answer to a tree expansion.
#[derive(Debug, Clone, PartialEq, Default)]
pub struct ExpandPermissionTreeResponse {
    /// The revision at which the tree was expanded.
    pub expanded_at: Option<ZedToken>,
    /// The root of the tree.
    pub tree_root: Option<PermissionRelationshipTree>,
}

/// Mathematical model of [`ExpandPermissionTreeResponse`].
pub struct ExpandPermissionTreeResponseView {
    pub expanded_at: Option<ZedTokenView>,
    pub tree_root: Option<PermissionRelationshipTreeView>,
}

impl View for ExpandPermissionTreeResponse {
    type V = ExpandPermissionTreeResponseView;

    open spec fn view(&self) -> ExpandPermissionTreeResponseView {
        ExpandPermissionTreeResponseView {
            expanded_at: option_view(self.expanded_at),
            tree_root: option_view(self.tree_root),
        }
    }
}

} // verus!
