//! Relationship filters and subject filters.

use crate::error::{result_view, Error, ErrorView};
use crate::model::option_view;
use crate::proto;
use crate::types::permission::{required_token, token_from_proto};
use crate::types::relationship::{Relationship, RelationshipView};
use crate::types::token::{ZedToken, ZedTokenView};
use vstd::prelude::*;

verus! {

/// The wire form of an optional string: the string, or the empty string in
/// its absence.
pub open spec fn or_empty(o: Option<Seq<char>>) -> Seq<char> {
    match o {
        Some(s) => s,
        None => Seq::empty(),
    }
}

/// Copies an optional string into its wire form.
pub(crate) fn clone_or_empty(o: &Option<String>) -> (s: String)
    ensures
        s@ == or_empty(option_view(*o)),
{
    match o {
        Some(x) => x.clone(),
        None => String::new(),
    }
}

/// A filter on the subject side of a relationship. Only the subject type is
/// mandatory.
#[derive(Debug, Clone, PartialEq, Eq, Hash)]
pub struct SubjectFilter {
    /// The subject object type.
    pub subject_type: String,
    /// Optional subject object ID.
    pub optional_subject_id: Option<String>,
    /// Optional relation on the subject.
    pub optional_relation: Option<String>,
}

/// Mathematical model of [`SubjectFilter`].
pub struct SubjectFilterView {
    pub subject_type: Seq<char>,
    pub optional_subject_id: Option<Seq<char>>,
    pub optional_relation: Option<Seq<char>>,
}

impl SubjectFilterView {
    /// The wire form of a subject filter: an absent id travels as the empty
    /// string, an absent relation as an absent relation filter.
    pub open spec fn to_proto(self) -> proto::base::SubjectFilterView {
        proto::base::SubjectFilterView {
            subject_type: self.subject_type,
            optional_subject_id: or_empty(self.optional_subject_id),
            optional_relation: match self.optional_relation {
                Some(relation) => Some(proto::base::RelationFilterView { relation }),
                None => None,
            },
        }
    }
}

impl View for SubjectFilter {
    type V = SubjectFilterView;

    open spec fn view(&self) -> SubjectFilterView {
        SubjectFilterView {
            subject_type: self.subject_type@,
            optional_subject_id: option_view(self.optional_subject_id),
            optional_relation: option_view(self.optional_relation),
        }
    }
}

impl SubjectFilter {
    /// Creates a new subject filter for the given type.
    pub fn new(subject_type: &str) -> (f: SubjectFilter)
        ensures
            f@ == (SubjectFilterView {
                subject_type: subject_type@,
                optional_subject_id: None,
                optional_relation: None,
            }),
    {
        SubjectFilter {
            subject_type: subject_type.to_owned(),
            optional_subject_id: None,
            optional_relation: None,
        }
    }

    /// Adds a subject ID filter.
    pub fn subject_id(self, id: &str) -> (f: SubjectFilter)
        ensures
            f@ == (SubjectFilterView { optional_subject_id: Some(id@), ..self@ }),
    {
        let mut f = self;
        f.optional_subject_id = Some(id.to_owned());
        f
    }

    /// Adds a relation filter on the subject.
    pub fn relation(self, relation: &str) -> (f: SubjectFilter)
        ensures
            f@ == (SubjectFilterView { optional_relation: Some(relation@), ..self@ }),
    {
        let mut f = self;
        f.optional_relation = Some(relation.to_owned());
        f
    }

    /// The wire form of this filter.
    pub fn to_proto(&self) -> (p: proto::SubjectFilter)
        ensures
            p@ == self@.to_proto(),
    {
        proto::SubjectFilter {
            subject_type: self.subject_type.clone(),
            optional_subject_id: clone_or_empty(&self.optional_subject_id),
            optional_relation: match &self.optional_relation {
                Some(r) => Some(proto::RelationFilter { relation: r.clone() }),
                None => None,
            },
        }
    }
}

/// A filter selecting relationships by resource type, id, relation and
/// subject. Only the resource type is mandatory; each further part narrows
/// the selection.
#[derive(Debug, Clone, PartialEq, Eq, Hash)]
pub struct RelationshipFilter {
    /// Resource type to filter on.
    pub resource_type: String,
    /// Optional resource ID.
    pub optional_resource_id: Option<String>,
    /// Optional relation name.
    pub optional_relation: Option<String>,
    /// Optional subject filter.
    pub optional_subject_filter: Option<SubjectFilter>,
}

/// Mathematical model of [`RelationshipFilter`].
pub struct RelationshipFilterView {
    pub resource_type: Seq<char>,
    pub optional_resource_id: Option<Seq<char>>,
    pub optional_relation: Option<Seq<char>>,
    pub optional_subject_filter: Option<SubjectFilterView>,
}

impl RelationshipFilterView {
    /// The wire form of a relationship filter: absent strings travel as the
    /// empty string, and no resource id prefix is ever sent.
    pub open spec fn to_proto(self) -> proto::base::RelationshipFilterView {
        proto::base::RelationshipFilterView {
            resource_type: self.resource_type,
            optional_resource_id: or_empty(self.optional_resource_id),
            optional_resource_id_prefix: Seq::empty(),
            optional_relation: or_empty(self.optional_relation),
            optional_subject_filter: match self.optional_subject_filter {
                Some(f) => Some(f.to_proto()),
                None => None,
            },
        }
    }
}

impl View for RelationshipFilter {
    type V = RelationshipFilterView;

    open spec fn view(&self) -> RelationshipFilterView {
        RelationshipFilterView {
            resource_type: self.resource_type@,
            optional_resource_id: option_view(self.optional_resource_id),
            optional_relation: option_view(self.optional_relation),
            optional_subject_filter: option_view(self.optional_subject_filter),
        }
    }
}

impl RelationshipFilter {
    /// Creates a new filter for the given resource type.
    pub fn new(resource_type: &str) -> (f: RelationshipFilter)
        ensures
            f@ == (RelationshipFilterView {
                resource_type: resource_type@,
                optional_resource_id: None,
                optional_relation: None,
                optional_subject_filter: None,
            }),
    {
        RelationshipFilter {
            resource_type: resource_type.to_owned(),
            optional_resource_id: None,
            optional_relation: None,
            optional_subject_filter: None,
        }
    }

    /// Adds a resource ID filter.
    pub fn resource_id(self, id: &str) -> (f: RelationshipFilter)
        ensures
            f@ == (RelationshipFilterView { optional_resource_id: Some(id@), ..self@ }),
    {
        let mut f = self;
        f.optional_resource_id = Some(id.to_owned());
        f
    }

    /// Adds a relation filter.
    pub fn relation(self, relation: &str) -> (f: RelationshipFilter)
        ensures
            f@ == (RelationshipFilterView { optional_relation: Some(relation@), ..self@ }),
    {
        let mut f = self;
        f.optional_relation = Some(relation.to_owned());
        f
    }

    /// Adds a subject filter.
    pub fn subject_filter(self, filter: SubjectFilter) -> (f: RelationshipFilter)
        ensures
            f@ == (RelationshipFilterView { optional_subject_filter: Some(filter@), ..self@ }),
    {
        let mut f = self;
        f.optional_subject_filter = Some(filter);
        f
    }

    /// The wire form of this filter.
    pub fn to_proto(&self) -> (p: proto::RelationshipFilter)
        ensures
            p@ == self@.to_proto(),
    {
        proto::RelationshipFilter {
            resource_type: self.resource_type.clone(),
            optional_resource_id: clone_or_empty(&self.optional_resource_id),
            optional_resource_id_prefix: String::new(),
            optional_relation: clone_or_empty(&self.optional_relation),
            optional_subject_filter: match &self.optional_subject_filter {
                Some(f) => Some(f.to_proto()),
                None => None,
            },
        }
    }
}

/// A relationship together with the revision at which it was read.
#[derive(Clone, PartialEq)]
pub struct ReadRelationshipResult {
    /// The relationship.
    pub relationship: Relationship,
    /// The token at which this relationship was read.
    pub read_at: ZedToken,
}

/// Mathematical model of [`ReadRelationshipResult`].
pub struct ReadRelationshipResultView {
    pub relationship: RelationshipView,
    pub read_at: ZedTokenView,
}

impl ReadRelationshipResultView {
    /// What decoding one response of a read yields: the relationship is
    /// required and decoded first, then the token.
    pub open spec fn from_proto(p: proto::permission::ReadRelationshipsResponseView) -> Result<
        ReadRelationshipResultView,
        ErrorView,
    > {
        match p.relationship {
            None => Err(ErrorView::Serialization("missing relationship"@)),
            Some(rel) => match RelationshipView::from_proto(rel) {
                Err(e) => Err(e),
                Ok(relationship) => match required_token(p.read_at, "missing read_at token"@) {
                    Err(e) => Err(e),
                    Ok(read_at) => Ok(ReadRelationshipResultView { relationship, read_at }),
                },
            },
        }
    }
}

/// A read response that fails to decode fails as a malformed message.
pub proof fn lemma_read_decode_failure(p: proto::permission::ReadRelationshipsResponseView)
    ensures
        ReadRelationshipResultView::from_proto(p) matches Err(e) ==> e is Serialization,
{
}

impl View for ReadRelationshipResult {
    type V = ReadRelationshipResultView;

    open spec fn view(&self) -> ReadRelationshipResultView {
        ReadRelationshipResultView { relationship: self.relationship@, read_at: self.read_at@ }
    }
}

impl ReadRelationshipResult {
    /// Decodes one response of a read.
    pub fn from_proto(proto: proto::ReadRelationshipsResponse) -> (r: Result<
        ReadRelationshipResult,
        Error,
    >)
        ensures
            result_view(r) == ReadRelationshipResultView::from_proto(proto@),
    {
        let relationship = match proto.relationship {
            None => {
                return Err(Error::serialization("missing relationship"));
            },
            Some(rel) => match Relationship::from_proto(rel) {
                Err(e) => {
                    return Err(e);
                },
                Ok(r) => r,
            },
        };
        match token_from_proto(proto.read_at, "missing read_at token") {
            Err(e) => Err(e),
            Ok(read_at) => Ok(ReadRelationshipResult { relationship, read_at }),
        }
    }
}

} // verus!
