//! Core wire messages: references, tokens, relationships, filters.

use super::value::{Struct, StructView};
use crate::model::{option_view, seq_view};
use vstd::prelude::*;

verus! {

/// Operation code of a relationship update that creates.
pub const UPDATE_CREATE: i32 = 1;

/// Operation code of a relationship update that upserts.
pub const UPDATE_TOUCH: i32 = 2;

/// Operation code of a relationship update that deletes.
pub const UPDATE_DELETE: i32 = 3;

/// Operation code of a precondition whose filter must match nothing.
pub const PRECONDITION_MUST_NOT_MATCH: i32 = 1;

/// Operation code of a precondition whose filter must match something.
pub const PRECONDITION_MUST_MATCH: i32 = 2;

/// Check indicator: the subject lacks the permission.
pub const PERMISSIONSHIP_NO_PERMISSION: i32 = 1;

/// Check indicator: the subject has the permission.
pub const PERMISSIONSHIP_HAS_PERMISSION: i32 = 2;

/// Check indicator: the permission depends on missing caveat context.
pub const PERMISSIONSHIP_CONDITIONAL: i32 = 3;

/// Lookup indicator: the entry is accessible.
pub const LOOKUP_HAS_PERMISSION: i32 = 1;

/// Lookup indicator: the entry depends on missing caveat context.
pub const LOOKUP_CONDITIONAL: i32 = 2;

/// Set operation of an intermediate tree node: union.
pub const SET_UNION: i32 = 1;

/// Set operation of an intermediate tree node: intersection.
pub const SET_INTERSECTION: i32 = 2;

/// Set operation of an intermediate tree node: exclusion.
pub const SET_EXCLUSION: i32 = 3;

/// Wire form of a reference to an object: its type and its id.
#[derive(Debug, PartialEq, Default)]
pub struct ObjectReference {
    /// The object type; empty when the sender left it out.
    pub object_type: String,
    /// The object id; empty when the sender left it out.
    pub object_id: String,
}

/// Mathematical model of [`ObjectReference`].
pub struct ObjectReferenceView {
    pub object_type: Seq<char>,
    pub object_id: Seq<char>,
}

impl View for ObjectReference {
    type V = ObjectReferenceView;

    open spec fn view(&self) -> ObjectReferenceView {
        ObjectReferenceView {
            object_type: self.object_type@,
            object_id: self.object_id@,
        }
    }
}

/// Wire form of a subject: an object and a relation on it, where the empty
/// relation stands for "no relation".
#[derive(Debug, PartialEq, Default)]
pub struct SubjectReference {
    /// The subject's object.
    pub object: Option<ObjectReference>,
    /// The relation on the subject, or the empty string.
    pub optional_relation: String,
}

/// Mathematical model of [`SubjectReference`].
pub struct SubjectReferenceView {
    pub object: Option<ObjectReferenceView>,
    pub optional_relation: Seq<char>,
}

impl View for SubjectReference {
    type V = SubjectReferenceView;

    open spec fn view(&self) -> SubjectReferenceView {
        SubjectReferenceView {
            object: option_view(self.object),
            optional_relation: self.optional_relation@,
        }
    }
}

/// Wire form of a consistency token.
#[derive(Debug, Clone, PartialEq, Default)]
pub struct ZedToken {
    /// The opaque token text.
    pub token: String,
}

/// Mathematical model of [`ZedToken`].
pub struct ZedTokenView {
    pub token: Seq<char>,
}

impl View for ZedToken {
    type V = ZedTokenView;

    open spec fn view(&self) -> ZedTokenView {
        ZedTokenView {
            token: self.token@,
        }
    }
}

/// An opaque position in a paged result.
#[derive(Debug, Clone, PartialEq, Default)]
pub struct Cursor {
    /// The opaque cursor text.
    pub token: String,
}

/// Mathematical model of [`Cursor`].
pub struct CursorView {
    pub token: Seq<char>,
}

impl View for Cursor {
    type V = CursorView;

    open spec fn view(&self) -> CursorView {
        CursorView {
            token: self.token@,
        }
    }
}

/// A point in time, as seconds and nanoseconds since the Unix epoch.
#[derive(Debug, Clone, PartialEq, Default)]
pub struct Timestamp {
    /// Whole seconds since the epoch.
    pub seconds: i64,
    /// Nanoseconds within the second.
    pub nanos: i32,
}

/// Mathematical model of [`Timestamp`].
pub struct TimestampView {
    pub seconds: i64,
    pub nanos: i32,
}

impl View for Timestamp {
    type V = TimestampView;

    open spec fn view(&self) -> TimestampView {
        TimestampView {
            seconds: self.seconds,
            nanos: self.nanos,
        }
    }
}

/// Side channel of a conditional permission: the context fields that a caveat
/// still needs.
#[derive(Debug, Clone, PartialEq, Default)]
pub struct PartialCaveatInfo {
    /// Names of the missing context fields.
    pub missing_required_context: Vec<String>,
}

/// Mathematical model of [`PartialCaveatInfo`].
pub struct PartialCaveatInfoView {
    pub missing_required_context: Seq<Seq<char>>,
}

impl View for PartialCaveatInfo {
    type V = PartialCaveatInfoView;

    open spec fn view(&self) -> PartialCaveatInfoView {
        PartialCaveatInfoView {
            missing_required_context: seq_view(self.missing_required_context@),
        }
    }
}

/// Wire form of a caveat attached to a relationship.
#[derive(Debug, Clone, PartialEq, Default)]
pub struct ContextualizedCaveat {
    /// The caveat's name in the schema.
    pub caveat_name: String,
    /// The caveat's context; absent when there is none.
    pub context: Option<Struct>,
}

/// Mathematical model of [`ContextualizedCaveat`].
pub struct ContextualizedCaveatView {
    pub caveat_name: Seq<char>,
    pub context: Option<StructView>,
}

impl View for ContextualizedCaveat {
    type V = ContextualizedCaveatView;

    open spec fn view(&self) -> ContextualizedCaveatView {
        ContextualizedCaveatView {
            caveat_name: self.caveat_name@,
            context: option_view(self.context),
        }
    }
}

/// Wire form of a relationship.
#[derive(Debug, Clone, PartialEq, Default)]
pub struct Relationship {
    /// The resource side.
    pub resource: Option<ObjectReference>,
    /// The relation name.
    pub relation: String,
    /// The subject side.
    pub subject: Option<SubjectReference>,
    /// The caveat on the relationship, if any.
    pub optional_caveat: Option<ContextualizedCaveat>,
    /// When the relationship expires, if ever.
    pub optional_expires_at: Option<Timestamp>,
}

/// Mathematical model of [`Relationship`].
pub struct RelationshipView {
    pub resource: Option<ObjectReferenceView>,
    pub relation: Seq<char>,
    pub subject: Option<SubjectReferenceView>,
    pub optional_caveat: Option<ContextualizedCaveatView>,
    pub optional_expires_at: Option<TimestampView>,
}

impl View for Relationship {
    type V = RelationshipView;

    open spec fn view(&self) -> RelationshipView {
        RelationshipView {
            resource: option_view(self.resource),
            relation: self.relation@,
            subject: option_view(self.subject),
            optional_caveat: option_view(self.optional_caveat),
            optional_expires_at: option_view(self.optional_expires_at),
        }
    }
}

/// Wire form of a relationship mutation.
#[derive(Debug, Clone, PartialEq, Default)]
pub struct RelationshipUpdate {
    /// The operation code: 1 create, 2 touch, 3 delete.
    pub operation: i32,
    /// The relationship to mutate.
    pub relationship: Option<Relationship>,
}

/// Mathematical model of [`RelationshipUpdate`].
pub struct RelationshipUpdateView {
    pub operation: i32,
    pub relationship: Option<RelationshipView>,
}

impl View for RelationshipUpdate {
    type V = RelationshipUpdateView;

    open spec fn view(&self) -> RelationshipUpdateView {
        RelationshipUpdateView {
            operation: self.operation,
            relationship: option_view(self.relationship),
        }
    }
}

/// A filter on the relation of a subject.
#[derive(Debug, Clone, PartialEq, Default)]
pub struct RelationFilter {
    /// The relation the subject must carry.
    pub relation: String,
}

/// Mathematical model of [`RelationFilter`].
pub struct RelationFilterView {
    pub relation: Seq<char>,
}

impl View for RelationFilter {
    type V = RelationFilterView;

    open spec fn view(&self) -> RelationFilterView {
        RelationFilterView {
            relation: self.relation@,
        }
    }
}

/// Wire form of a filter on the subject side of relationships.
#[derive(Debug, Clone, PartialEq, Default)]
pub struct SubjectFilter {
    /// The subject object type.
    pub subject_type: String,
    /// The subject id, or the empty string for any.
    pub optional_subject_id: String,
    /// The subject relation, if filtered.
    pub optional_relation: Option<RelationFilter>,
}

/// Mathematical model of [`SubjectFilter`].
pub struct SubjectFilterView {
    pub subject_type: Seq<char>,
    pub optional_subject_id: Seq<char>,
    pub optional_relation: Option<RelationFilterView>,
}

impl View for SubjectFilter {
    type V = SubjectFilterView;

    open spec fn view(&self) -> SubjectFilterView {
        SubjectFilterView {
            subject_type: self.subject_type@,
            optional_subject_id: self.optional_subject_id@,
            optional_relation: option_view(self.optional_relation),
        }
    }
}

/// Wire form of a filter selecting relationships.
#[derive(Debug, Clone, PartialEq, Default)]
pub struct RelationshipFilter {
    /// The resource type.
    pub resource_type: String,
    /// The resource id, or the empty string for any.
    pub optional_resource_id: String,
    /// A prefix of the resource id, or the empty string for any.
    pub optional_resource_id_prefix: String,
    /// The relation, or the empty string for any.
    pub optional_relation: String,
    /// The subject filter, if any.
    pub optional_subject_filter: Option<SubjectFilter>,
}

/// Mathematical model of [`RelationshipFilter`].
pub struct RelationshipFilterView {
    pub resource_type: Seq<char>,
    pub optional_resource_id: Seq<char>,
    pub optional_resource_id_prefix: Seq<char>,
    pub optional_relation: Seq<char>,
    pub optional_subject_filter: Option<SubjectFilterView>,
}

impl View for RelationshipFilter {
    type V = RelationshipFilterView;

    open spec fn view(&self) -> RelationshipFilterView {
        RelationshipFilterView {
            resource_type: self.resource_type@,
            optional_resource_id: self.optional_resource_id@,
            optional_resource_id_prefix: self.optional_resource_id_prefix@,
            optional_relation: self.optional_relation@,
            optional_subject_filter: option_view(self.optional_subject_filter),
        }
    }
}

/// Wire form of a precondition gating a write or delete.
#[derive(Debug, Clone, PartialEq, Default)]
pub struct Precondition {
    /// The operation code: 1 must not match, 2 must match.
    pub operation: i32,
    /// The filter the precondition tests.
    pub filter: Option<RelationshipFilter>,
}

/// Mathematical model of [`Precondition`].
pub struct PreconditionView {
    pub operation: i32,
    pub filter: Option<RelationshipFilterView>,
}

impl View for Precondition {
    type V = PreconditionView;

    open spec fn view(&self) -> PreconditionView {
        PreconditionView {
            operation: self.operation,
            filter: option_view(self.filter),
        }
    }
}

/// The consistency requirement chosen for a read.
#[derive(Debug, Clone, PartialEq)]
pub enum Requirement {
    /// Let the server pick the fastest snapshot.
    MinimizeLatency(bool),
    /// Read data at least as fresh as the token.
    AtLeastAsFresh(ZedToken),
    /// Read exactly at the token's snapshot.
    AtExactSnapshot(ZedToken),
    /// Read at the most recent snapshot.
    FullyConsistent(bool),
}

/// Mathematical model of [`Requirement`].
pub enum RequirementView {
    MinimizeLatency(bool),
    AtLeastAsFresh(ZedTokenView),
    AtExactSnapshot(ZedTokenView),
    FullyConsistent(bool),
}

impl View for Requirement {
    type V = RequirementView;

    open spec fn view(&self) -> RequirementView {
        match self {
            Requirement::MinimizeLatency(x) => RequirementView::MinimizeLatency(*x),
            Requirement::AtLeastAsFresh(x) => RequirementView::AtLeastAsFresh(x@),
            Requirement::AtExactSnapshot(x) => RequirementView::AtExactSnapshot(x@),
            Requirement::FullyConsistent(x) => RequirementView::FullyConsistent(*x),
        }
    }
}

/// Wire form of a consistency mode; an absent requirement leaves the choice to
/// the server.
#[derive(Debug, Clone, PartialEq, Default)]
pub struct Consistency {
    /// The chosen requirement.
    pub requirement: Option<Requirement>,
}

/// Mathematical model of [`Consistency`].
pub struct ConsistencyView {
    pub requirement: Option<RequirementView>,
}

impl View for Consistency {
    type V = ConsistencyView;

    open spec fn view(&self) -> ConsistencyView {
        ConsistencyView {
            requirement: option_view(self.requirement),
        }
    }
}

/// A serialized message of any type, with the URL naming that type.
#[derive(Debug, Clone, PartialEq, Default)]
pub struct Any {
    /// URL naming the type of the serialized message.
    pub type_url: String,
    /// The serialized message.
    pub value: Vec<u8>,
}

/// Mathematical model of [`Any`].
pub struct AnyView {
    pub type_url: Seq<char>,
    pub value: Seq<u8>,
}

impl View for Any {
    type V = AnyView;

    open spec fn view(&self) -> AnyView {
        AnyView {
            type_url: self.type_url@,
            value: self.value@,
        }
    }
}

/// A status reported by the server for a single item.
#[derive(Debug, Clone, PartialEq, Default)]
pub struct Status {
    /// The status code as an integer.
    pub code: i32,
    /// Human-readable message.
    pub message: String,
    /// Further details, each a serialized message.
    pub details: Vec<Any>,
}

/// Mathematical model of [`Status`].
pub struct StatusView {
    pub code: i32,
    pub message: Seq<char>,
    pub details: Seq<AnyView>,
}

impl View for Status {
    type V = StatusView;

    open spec fn view(&self) -> StatusView {
        StatusView {
            code: self.code,
            message: self.message@,
            details: seq_view(self.details@),
        }
    }
}

impl Clone for ObjectReference {
    fn clone(&self) -> (r: Self)
        ensures
            r@ == self@,
    {
        ObjectReference {
            object_type: self.object_type.clone(),
            object_id: self.object_id.clone(),
        }
    }
}

impl Clone for SubjectReference {
    fn clone(&self) -> (r: Self)
        ensures
            r@ == self@,
    {
        SubjectReference {
            object: match &self.object {
                Some(o) => Some(o.clone()),
                None => None,
            },
            optional_relation: self.optional_relation.clone(),
        }
    }
}

} // verus!
