//! Relationships, relationship updates, caveats and preconditions.

use crate::error::{result_view, Error, ErrorView};
use crate::model::{decimal, numbered_message, option_view};
use crate::proto;
use crate::proto::base::{
    PRECONDITION_MUST_MATCH, PRECONDITION_MUST_NOT_MATCH, UPDATE_CREATE, UPDATE_DELETE,
    UPDATE_TOUCH,
};
use crate::types::context::{
    decode_fields, encode_entries, entries_valid, lemma_context_entries_roundtrip, ContextEntryView,
    ContextMap,
};
use crate::types::filter::{RelationshipFilter, RelationshipFilterView};
use crate::types::reference::{
    ObjectReference, ObjectReferenceView, SubjectReference, SubjectReferenceView,
};
use vstd::prelude::*;

verus! {

/// A caveat attached to a relationship: a named condition with the context
/// that parameterizes it.
#[derive(Debug, Clone, PartialEq)]
pub struct Caveat {
    /// The caveat name as defined in the schema.
    pub name: String,
    /// Key-value context pairs for caveat evaluation.
    pub context: ContextMap,
}

/// Mathematical model of [`Caveat`].
pub struct CaveatView {
    pub name: Seq<char>,
    pub context: Seq<ContextEntryView>,
}

impl CaveatView {
    /// Whether the caveat's context is well formed. That of every
    /// [`Caveat`] is.
    pub open spec fn is_valid(self) -> bool {
        entries_valid(self.context)
    }

    /// The wire form of a caveat: an empty context is left out.
    pub open spec fn to_proto(self) -> proto::base::ContextualizedCaveatView {
        proto::base::ContextualizedCaveatView {
            caveat_name: self.name,
            context: if self.context.len() == 0 {
                None
            } else {
                Some(proto::value::StructView { fields: encode_entries(self.context) })
            },
        }
    }

    /// The caveat that a wire caveat stands for: an absent context is read
    /// as the empty context.
    pub open spec fn from_proto(p: proto::base::ContextualizedCaveatView) -> CaveatView {
        CaveatView {
            name: p.caveat_name,
            context: match p.context {
                Some(s) => decode_fields(s.fields, s.fields.len()),
                None => Seq::empty(),
            },
        }
    }
}

impl View for Caveat {
    type V = CaveatView;

    open spec fn view(&self) -> CaveatView {
        CaveatView { name: self.name@, context: self.context@ }
    }
}

impl Caveat {
    /// Creates a new caveat with the given name and context.
    pub fn new(name: &str, context: ContextMap) -> (c: Caveat)
        ensures
            c@ == (CaveatView { name: name@, context: context@ }),
    {
        Caveat { name: name.to_owned(), context }
    }

    /// The wire form of this caveat.
    pub fn to_proto(&self) -> (p: proto::ContextualizedCaveat)
        ensures
            p@ == self@.to_proto(),
            self@.is_valid(),
            CaveatView::from_proto(p@) == self@,
    {
        let context = self.context.to_proto();
        proof {
            lemma_caveat_roundtrip(self@);
        }
        proto::ContextualizedCaveat {
            caveat_name: self.name.clone(),
            context: if self.context.is_empty() {
                None
            } else {
                Some(context)
            },
        }
    }

    /// The caveat that a wire caveat stands for.
    pub fn from_proto(p: proto::ContextualizedCaveat) -> (c: Caveat)
        ensures
            c@ == CaveatView::from_proto(p@),
    {
        Caveat {
            name: p.caveat_name,
            context: match p.context {
                Some(s) => ContextMap::from_proto(s),
                None => ContextMap::new(),
            },
        }
    }
}

/// A relationship between a resource and a subject via a relation,
/// optionally caveated.
#[derive(Debug, Clone, PartialEq)]
pub struct Relationship {
    /// The resource side of the relationship.
    pub resource: ObjectReference,
    /// The relation name (e.g., `"viewer"`, `"owner"`).
    pub relation: String,
    /// The subject side of the relationship.
    pub subject: SubjectReference,
    /// An optional caveat on this relationship.
    pub optional_caveat: Option<Caveat>,
}

/// Mathematical model of [`Relationship`].
pub struct RelationshipView {
    pub resource: ObjectReferenceView,
    pub relation: Seq<char>,
    pub subject: SubjectReferenceView,
    pub optional_caveat: Option<CaveatView>,
}

impl RelationshipView {
    /// Whether every part of the relationship is valid. Those of every
    /// [`Relationship`] are.
    pub open spec fn is_valid(self) -> bool {
        &&& self.resource.is_valid()
        &&& self.subject.is_valid()
        &&& self.optional_caveat matches Some(c) ==> c.is_valid()
    }

    /// The wire form of a relationship; no expiry is ever sent.
    pub open spec fn to_proto(self) -> proto::base::RelationshipView {
        proto::base::RelationshipView {
            resource: Some(self.resource.to_proto()),
            relation: self.relation,
            subject: Some(self.subject.to_proto()),
            optional_caveat: match self.optional_caveat {
                Some(c) => Some(c.to_proto()),
                None => None,
            },
            optional_expires_at: None,
        }
    }

    /// What decoding a wire relationship yields: resource and subject are
    /// required and validated, in that order; the caveat is optional.
    pub open spec fn from_proto(p: proto::base::RelationshipView) -> Result<
        RelationshipView,
        ErrorView,
    > {
        match p.resource {
            None => Err(ErrorView::Serialization("missing resource"@)),
            Some(res) => match ObjectReferenceView::from_proto(res) {
                Err(e) => Err(e),
                Ok(resource) => match p.subject {
                    None => Err(ErrorView::Serialization("missing subject"@)),
                    Some(sub) => match SubjectReferenceView::from_proto(sub) {
                        Err(e) => Err(e),
                        Ok(subject) => Ok(
                            RelationshipView {
                                resource,
                                relation: p.relation,
                                subject,
                                optional_caveat: match p.optional_caveat {
                                    Some(c) => Some(CaveatView::from_proto(c)),
                                    None => None,
                                },
                            },
                        ),
                    },
                },
            },
        }
    }
}

impl View for Relationship {
    type V = RelationshipView;

    open spec fn view(&self) -> RelationshipView {
        RelationshipView {
            resource: self.resource@,
            relation: self.relation@,
            subject: self.subject@,
            optional_caveat: option_view(self.optional_caveat),
        }
    }
}

impl Relationship {
    /// Creates a new relationship without a caveat.
    pub fn new(resource: ObjectReference, relation: &str, subject: SubjectReference) -> (r:
        Relationship)
        ensures
            r@ == (RelationshipView {
                resource: resource@,
                relation: relation@,
                subject: subject@,
                optional_caveat: None,
            }),
    {
        Relationship { resource, relation: relation.to_owned(), subject, optional_caveat: None }
    }

    /// Attaches a caveat to this relationship.
    pub fn with_caveat(self, caveat: Caveat) -> (r: Relationship)
        ensures
            r@ == (RelationshipView { optional_caveat: Some(caveat@), ..self@ }),
    {
        let mut r = self;
        r.optional_caveat = Some(caveat);
        r
    }

    /// The wire form of this relationship.
    pub fn to_proto(&self) -> (p: proto::Relationship)
        ensures
            p@ == self@.to_proto(),
            self@.is_valid(),
            RelationshipView::from_proto(p@) == Ok::<RelationshipView, ErrorView>(self@),
    {
        proof {
            use_type_invariant(&self.resource);
            use_type_invariant(&self.subject);
        }
        proto::Relationship {
            resource: Some(self.resource.to_proto()),
            relation: self.relation.clone(),
            subject: Some(self.subject.to_proto()),
            optional_caveat: match &self.optional_caveat {
                Some(c) => Some(c.to_proto()),
                None => None,
            },
            optional_expires_at: None,
        }
    }

    /// Decodes a wire relationship, validating its references anew.
    pub fn from_proto(proto: proto::Relationship) -> (r: Result<Relationship, Error>)
        ensures
            result_view(r) == RelationshipView::from_proto(proto@),
    {
        let resource = match proto.resource {
            None => {
                return Err(Error::serialization("missing resource"));
            },
            Some(res) => match ObjectReference::from_proto(res) {
                Err(e) => {
                    return Err(e);
                },
                Ok(o) => o,
            },
        };
        let subject = match proto.subject {
            None => {
                return Err(Error::serialization("missing subject"));
            },
            Some(sub) => match SubjectReference::from_proto(sub) {
                Err(e) => {
                    return Err(e);
                },
                Ok(s) => s,
            },
        };
        let optional_caveat = match proto.optional_caveat {
            Some(c) => Some(Caveat::from_proto(c)),
            None => None,
        };
        Ok(Relationship { resource, relation: proto.relation, subject, optional_caveat })
    }
}

/// The operation to perform on a relationship. What each does to stored
/// relationships is decided by the server.
#[derive(Debug, Clone, Copy, PartialEq, Eq, Hash)]
pub enum Operation {
    /// Create the relationship; error if it already exists.
    Create,
    /// Upsert the relationship; no error if it already exists.
    Touch,
    /// Delete the relationship; no-op if it doesn't exist.
    Delete,
}

/// The wire code of an update operation.
pub open spec fn operation_code(op: Operation) -> i32 {
    match op {
        Operation::Create => UPDATE_CREATE,
        Operation::Touch => UPDATE_TOUCH,
        Operation::Delete => UPDATE_DELETE,
    }
}

/// The operation that a wire code stands for; codes other than 1, 2 and 3
/// stand for none.
pub open spec fn operation_of_code(code: i32) -> Result<Operation, ErrorView> {
    if code == UPDATE_CREATE {
        Ok(Operation::Create)
    } else if code == UPDATE_TOUCH {
        Ok(Operation::Touch)
    } else if code == UPDATE_DELETE {
        Ok(Operation::Delete)
    } else {
        Err(ErrorView::Serialization("unknown operation: "@ + decimal(code as int)))
    }
}

/// A relationship mutation (create, touch, or delete).
#[derive(Debug, Clone, PartialEq)]
pub struct RelationshipUpdate {
    /// The operation to perform.
    pub operation: Operation,
    /// The relationship to mutate.
    pub relationship: Relationship,
}

/// Mathematical model of [`RelationshipUpdate`].
pub struct RelationshipUpdateView {
    pub operation: Operation,
    pub relationship: RelationshipView,
}

impl RelationshipUpdateView {
    /// The wire form of an update.
    pub open spec fn to_proto(self) -> proto::base::RelationshipUpdateView {
        proto::base::RelationshipUpdateView {
            operation: operation_code(self.operation),
            relationship: Some(self.relationship.to_proto()),
        }
    }

    /// What decoding a wire update yields: the operation code is read first,
    /// strictly; then the relationship, which is required.
    pub open spec fn from_proto(p: proto::base::RelationshipUpdateView) -> Result<
        RelationshipUpdateView,
        ErrorView,
    > {
        match operation_of_code(p.operation) {
            Err(e) => Err(e),
            Ok(operation) => match p.relationship {
                None => Err(ErrorView::Serialization("missing relationship"@)),
                Some(rel) => match RelationshipView::from_proto(rel) {
                    Err(e) => Err(e),
                    Ok(relationship) => Ok(RelationshipUpdateView { operation, relationship }),
                },
            },
        }
    }
}

impl View for RelationshipUpdate {
    type V = RelationshipUpdateView;

    open spec fn view(&self) -> RelationshipUpdateView {
        RelationshipUpdateView { operation: self.operation, relationship: self.relationship@ }
    }
}

impl RelationshipUpdate {
    /// Creates a CREATE update for the given relationship.
    pub fn create(relationship: Relationship) -> (u: RelationshipUpdate)
        ensures
            u@ == (RelationshipUpdateView {
                operation: Operation::Create,
                relationship: relationship@,
            }),
    {
        RelationshipUpdate { operation: Operation::Create, relationship }
    }

    /// Creates a TOUCH (upsert) update for the given relationship.
    pub fn touch(relationship: Relationship) -> (u: RelationshipUpdate)
        ensures
            u@ == (RelationshipUpdateView {
                operation: Operation::Touch,
                relationship: relationship@,
            }),
    {
        RelationshipUpdate { operation: Operation::Touch, relationship }
    }

    /// Creates a DELETE update for the given relationship.
    pub fn delete(relationship: Relationship) -> (u: RelationshipUpdate)
        ensures
            u@ == (RelationshipUpdateView {
                operation: Operation::Delete,
                relationship: relationship@,
            }),
    {
        RelationshipUpdate { operation: Operation::Delete, relationship }
    }

    /// The wire form of this update.
    pub fn to_proto(&self) -> (p: proto::RelationshipUpdate)
        ensures
            p@ == self@.to_proto(),
            self@.relationship.is_valid(),
            RelationshipUpdateView::from_proto(p@) == Ok::<RelationshipUpdateView, ErrorView>(
                self@,
            ),
    {
        proto::RelationshipUpdate {
            operation: match self.operation {
                Operation::Create => UPDATE_CREATE,
                Operation::Touch => UPDATE_TOUCH,
                Operation::Delete => UPDATE_DELETE,
            },
            relationship: Some(self.relationship.to_proto()),
        }
    }

    /// Decodes a wire update. An operation code the library does not know is
    /// a failure, never a default.
    pub fn from_proto(proto: proto::RelationshipUpdate) -> (r: Result<RelationshipUpdate, Error>)
        ensures
            result_view(r) == RelationshipUpdateView::from_proto(proto@),
    {
        let operation = if proto.operation == UPDATE_CREATE {
            Operation::Create
        } else if proto.operation == UPDATE_TOUCH {
            Operation::Touch
        } else if proto.operation == UPDATE_DELETE {
            Operation::Delete
        } else {
            return Err(
                Error::Serialization(
                    numbered_message("unknown operation: ", proto.operation as i128),
                ),
            );
        };
        match proto.relationship {
            None => Err(Error::serialization("missing relationship")),
            Some(rel) => match Relationship::from_proto(rel) {
                Err(e) => Err(e),
                Ok(relationship) => Ok(RelationshipUpdate { operation, relationship }),
            },
        }
    }
}

/// The operation for a precondition.
#[derive(Debug, Clone, Copy, PartialEq, Eq, Hash)]
pub enum PreconditionOp {
    /// The filter must match at least one existing relationship.
    MustExist,
    /// The filter must not match any existing relationships.
    MustNotExist,
}

/// The wire code of a precondition operation.
pub open spec fn precondition_code(op: PreconditionOp) -> i32 {
    match op {
        PreconditionOp::MustExist => PRECONDITION_MUST_MATCH,
        PreconditionOp::MustNotExist => PRECONDITION_MUST_NOT_MATCH,
    }
}

/// A precondition on a write or delete operation.
#[derive(Debug, Clone, PartialEq, Eq, Hash)]
pub struct Precondition {
    /// The precondition operation.
    pub operation: PreconditionOp,
    /// The filter that must (or must not) match.
    pub filter: RelationshipFilter,
}

/// Mathematical model of [`Precondition`].
pub struct PreconditionView {
    pub operation: PreconditionOp,
    pub filter: RelationshipFilterView,
}

impl PreconditionView {
    /// The wire form of a precondition.
    pub open spec fn to_proto(self) -> proto::base::PreconditionView {
        proto::base::PreconditionView {
            operation: precondition_code(self.operation),
            filter: Some(self.filter.to_proto()),
        }
    }
}

impl View for Precondition {
    type V = PreconditionView;

    open spec fn view(&self) -> PreconditionView {
        PreconditionView { operation: self.operation, filter: self.filter@ }
    }
}

impl Precondition {
    /// Creates a precondition that requires matching relationships to exist.
    pub fn must_exist(filter: RelationshipFilter) -> (p: Precondition)
        ensures
            p@ == (PreconditionView { operation: PreconditionOp::MustExist, filter: filter@ }),
    {
        Precondition { operation: PreconditionOp::MustExist, filter }
    }

    /// Creates a precondition that requires no matching relationships to
    /// exist.
    pub fn must_not_exist(filter: RelationshipFilter) -> (p: Precondition)
        ensures
            p@ == (PreconditionView { operation: PreconditionOp::MustNotExist, filter: filter@ }),
    {
        Precondition { operation: PreconditionOp::MustNotExist, filter }
    }

    /// The wire form of this precondition.
    pub fn to_proto(&self) -> (p: proto::Precondition)
        ensures
            p@ == self@.to_proto(),
    {
        proto::Precondition {
            operation: match self.operation {
                PreconditionOp::MustExist => PRECONDITION_MUST_MATCH,
                PreconditionOp::MustNotExist => PRECONDITION_MUST_NOT_MATCH,
            },
            filter: Some(self.filter.to_proto()),
        }
    }
}

/// A wire relationship or update that fails to decode fails as a malformed
/// message.
pub proof fn lemma_relationship_decode_failure(
    r: proto::base::RelationshipView,
    u: proto::base::RelationshipUpdateView,
)
    ensures
        RelationshipView::from_proto(r) matches Err(e) ==> e is Serialization,
        RelationshipUpdateView::from_proto(u) matches Err(e) ==> e is Serialization,
{
}

/// Decoding the wire form of a valid caveat gives the caveat back.
pub proof fn lemma_caveat_roundtrip(c: CaveatView)
    requires
        c.is_valid(),
    ensures
        CaveatView::from_proto(c.to_proto()) == c,
{
    if c.context.len() > 0 {
        lemma_context_entries_roundtrip(c.context, c.context.len());
        assert(c.context.take(c.context.len() as int) =~= c.context);
        assert(encode_entries(c.context).len() == c.context.len());
    } else {
        assert(c.context =~= Seq::empty());
    }
}

/// Decoding the wire form of a valid relationship gives it back.
pub proof fn lemma_relationship_roundtrip(r: RelationshipView)
    requires
        r.is_valid(),
    ensures
        RelationshipView::from_proto(r.to_proto()) == Ok::<RelationshipView, ErrorView>(r),
{
    if let Some(c) = r.optional_caveat {
        lemma_caveat_roundtrip(c);
    }
}

/// Decoding the wire form of an update of a valid relationship gives the
/// update back.
pub proof fn lemma_relationship_update_roundtrip(u: RelationshipUpdateView)
    requires
        u.relationship.is_valid(),
    ensures
        RelationshipUpdateView::from_proto(u.to_proto()) == Ok::<
            RelationshipUpdateView,
            ErrorView,
        >(u),
{
    lemma_relationship_roundtrip(u.relationship);
}

} // verus!
