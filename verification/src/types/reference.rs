//! Object and subject references.

use crate::error::{result_view, Error, ErrorView};
use crate::model::option_view;
use crate::proto;
use vstd::prelude::*;
use vstd::std_specs::cmp::PartialEqSpecImpl;

verus! {

/// A reference to an object: its type (such as `document`) and its id (such
/// as `doc-123`), both non-empty.
#[derive(Debug, Eq, Hash)]
pub struct ObjectReference {
    object_type: String,
    object_id: String,
}

/// Mathematical model of [`ObjectReference`].
pub struct ObjectReferenceView {
    pub object_type: Seq<char>,
    pub object_id: Seq<char>,
}

impl ObjectReferenceView {
    /// The invariant of every object reference: neither part is empty.
    pub open spec fn is_valid(self) -> bool {
        self.object_type.len() > 0 && self.object_id.len() > 0
    }

    /// What constructing a reference from a type and an id yields.
    pub open spec fn new(object_type: Seq<char>, object_id: Seq<char>) -> Result<
        ObjectReferenceView,
        ErrorView,
    > {
        if object_type.len() == 0 {
            Err(ErrorView::InvalidArgument("object_type must not be empty"@))
        } else if object_id.len() == 0 {
            Err(ErrorView::InvalidArgument("object_id must not be empty"@))
        } else {
            Ok(ObjectReferenceView { object_type, object_id })
        }
    }

    /// The wire form of a reference.
    pub open spec fn to_proto(self) -> proto::base::ObjectReferenceView {
        proto::base::ObjectReferenceView {
            object_type: self.object_type,
            object_id: self.object_id,
        }
    }

    /// What decoding a wire reference yields: the reference is validated
    /// anew, and an empty part makes the wire message malformed.
    pub open spec fn from_proto(p: proto::base::ObjectReferenceView) -> Result<
        ObjectReferenceView,
        ErrorView,
    > {
        if p.object_type.len() == 0 {
            Err(ErrorView::Serialization("object_type must not be empty"@))
        } else if p.object_id.len() == 0 {
            Err(ErrorView::Serialization("object_id must not be empty"@))
        } else {
            Ok(ObjectReferenceView { object_type: p.object_type, object_id: p.object_id })
        }
    }
}

impl View for ObjectReference {
    type V = ObjectReferenceView;

    closed spec fn view(&self) -> ObjectReferenceView {
        ObjectReferenceView { object_type: self.object_type@, object_id: self.object_id@ }
    }
}

impl ObjectReference {
    /// Every value of this type is valid.
    #[verifier::type_invariant]
    pub open spec fn well_formed(self) -> bool {
        self@.is_valid()
    }

    /// Creates a reference; an empty type or id is rejected.
    pub fn new(object_type: &str, object_id: &str) -> (r: Result<ObjectReference, Error>)
        ensures
            result_view(r) == ObjectReferenceView::new(object_type@, object_id@),
    {
        if object_type.is_empty() {
            return Err(Error::invalid_argument("object_type must not be empty"));
        }
        if object_id.is_empty() {
            return Err(Error::invalid_argument("object_id must not be empty"));
        }
        Ok(ObjectReference { object_type: object_type.to_owned(), object_id: object_id.to_owned() })
    }

    /// Returns the object type.
    pub fn object_type(&self) -> (s: &str)
        ensures
            s@ == self@.object_type,
    {
        self.object_type.as_str()
    }

    /// Returns the object id.
    pub fn object_id(&self) -> (s: &str)
        ensures
            s@ == self@.object_id,
    {
        self.object_id.as_str()
    }

    /// The wire form of this reference.
    pub fn to_proto(&self) -> (p: proto::ObjectReference)
        ensures
            p@ == self@.to_proto(),
            ObjectReferenceView::from_proto(p@) == Ok::<ObjectReferenceView, ErrorView>(self@),
    {
        proof {
            use_type_invariant(self);
        }
        proto::ObjectReference {
            object_type: self.object_type.clone(),
            object_id: self.object_id.clone(),
        }
    }

    /// Decodes a wire reference, validating it anew.
    pub fn from_proto(p: proto::ObjectReference) -> (r: Result<ObjectReference, Error>)
        ensures
            result_view(r) == ObjectReferenceView::from_proto(p@),
    {
        if p.object_type.as_str().is_empty() {
            return Err(Error::serialization("object_type must not be empty"));
        }
        if p.object_id.as_str().is_empty() {
            return Err(Error::serialization("object_id must not be empty"));
        }
        Ok(ObjectReference { object_type: p.object_type, object_id: p.object_id })
    }
}

impl PartialEq for ObjectReference {
    fn eq(&self, other: &Self) -> (r: bool) {
        self.object_type == other.object_type && self.object_id == other.object_id
    }
}

impl PartialEqSpecImpl for ObjectReference {
    open spec fn obeys_eq_spec() -> bool {
        true
    }

    /// Two references are equal when their types and their ids are.
    open spec fn eq_spec(&self, other: &Self) -> bool {
        self@ == other@
    }
}

impl Clone for ObjectReference {
    fn clone(&self) -> (r: Self)
        ensures
            r@ == self@,
    {
        proof {
            use_type_invariant(self);
        }
        ObjectReference {
            object_type: self.object_type.clone(),
            object_id: self.object_id.clone(),
        }
    }
}

/// A reference to a subject: an object and, optionally, a relation on it
/// (as in `group:eng#member`). A relation that is present is never empty.
#[derive(Debug, Eq, Hash)]
pub struct SubjectReference {
    object: ObjectReference,
    optional_relation: Option<String>,
}

/// Mathematical model of [`SubjectReference`].
pub struct SubjectReferenceView {
    pub object: ObjectReferenceView,
    pub optional_relation: Option<Seq<char>>,
}

impl SubjectReferenceView {
    /// The invariant of every subject reference: its object is valid and its
    /// relation, if present, is not empty.
    pub open spec fn is_valid(self) -> bool {
        &&& self.object.is_valid()
        &&& self.optional_relation matches Some(rel) ==> rel.len() > 0
    }

    /// What constructing a subject from an object and a relation yields.
    pub open spec fn new(object: ObjectReferenceView, optional_relation: Option<Seq<char>>) -> Result<
        SubjectReferenceView,
        ErrorView,
    > {
        if optional_relation matches Some(rel) && rel.len() == 0 {
            Err(ErrorView::InvalidArgument("optional_relation must not be empty; use None instead"@))
        } else {
            Ok(SubjectReferenceView { object, optional_relation })
        }
    }

    /// The wire form of a subject: an absent relation travels as the empty
    /// string.
    pub open spec fn to_proto(self) -> proto::base::SubjectReferenceView {
        proto::base::SubjectReferenceView {
            object: Some(self.object.to_proto()),
            optional_relation: match self.optional_relation {
                Some(rel) => rel,
                None => Seq::empty(),
            },
        }
    }

    /// What decoding a wire subject yields: the object is required, and the
    /// empty relation is read as "no relation".
    pub open spec fn from_proto(p: proto::base::SubjectReferenceView) -> Result<
        SubjectReferenceView,
        ErrorView,
    > {
        match p.object {
            None => Err(ErrorView::Serialization("missing subject object"@)),
            Some(o) => match ObjectReferenceView::from_proto(o) {
                Err(e) => Err(e),
                Ok(object) => Ok(
                    SubjectReferenceView {
                        object,
                        optional_relation: if p.optional_relation.len() == 0 {
                            None
                        } else {
                            Some(p.optional_relation)
                        },
                    },
                ),
            },
        }
    }
}

impl View for SubjectReference {
    type V = SubjectReferenceView;

    closed spec fn view(&self) -> SubjectReferenceView {
        SubjectReferenceView {
            object: self.object@,
            optional_relation: option_view(self.optional_relation),
        }
    }
}

impl SubjectReference {
    /// Every value of this type is valid.
    #[verifier::type_invariant]
    pub open spec fn well_formed(self) -> bool {
        self@.is_valid()
    }

    /// Creates a subject. A relation that is present but empty is rejected:
    /// pass `None` for "no relation".
    pub fn new(object: ObjectReference, optional_relation: Option<&str>) -> (r: Result<
        SubjectReference,
        Error,
    >)
        ensures
            result_view(r) == SubjectReferenceView::new(
                object@,
                match optional_relation {
                    Some(rel) => Some(rel@),
                    None => None,
                },
            ),
    {
        proof {
            use_type_invariant(&object);
        }
        match optional_relation {
            Some(rel) => {
                if rel.is_empty() {
                    return Err(
                        Error::invalid_argument(
                            "optional_relation must not be empty; use None instead",
                        ),
                    );
                }
                Ok(SubjectReference { object, optional_relation: Some(rel.to_owned()) })
            },
            None => Ok(SubjectReference { object, optional_relation: None }),
        }
    }

    /// Returns the subject's object reference.
    pub fn object(&self) -> (o: &ObjectReference)
        ensures
            o@ == self@.object,
    {
        &self.object
    }

    /// Returns the relation on the subject, if any.
    pub fn optional_relation(&self) -> (rel: Option<&str>)
        ensures
            match rel {
                Some(s) => self@.optional_relation == Some(s@),
                None => self@.optional_relation is None,
            },
    {
        match &self.optional_relation {
            Some(s) => Some(s.as_str()),
            None => None,
        }
    }

    /// The wire form of this subject.
    pub fn to_proto(&self) -> (p: proto::SubjectReference)
        ensures
            p@ == self@.to_proto(),
            SubjectReferenceView::from_proto(p@) == Ok::<SubjectReferenceView, ErrorView>(self@),
    {
        proof {
            use_type_invariant(self);
        }
        proto::SubjectReference {
            object: Some(self.object.to_proto()),
            optional_relation: match &self.optional_relation {
                Some(rel) => rel.clone(),
                None => String::new(),
            },
        }
    }

    /// Decodes a wire subject, validating it anew.
    pub fn from_proto(p: proto::SubjectReference) -> (r: Result<SubjectReference, Error>)
        ensures
            result_view(r) == SubjectReferenceView::from_proto(p@),
    {
        let object = match p.object {
            None => {
                return Err(Error::serialization("missing subject object"));
            },
            Some(o) => match ObjectReference::from_proto(o) {
                Err(e) => {
                    return Err(e);
                },
                Ok(object) => object,
            },
        };
        proof {
            use_type_invariant(&object);
        }
        if p.optional_relation.as_str().is_empty() {
            Ok(SubjectReference { object, optional_relation: None })
        } else {
            Ok(SubjectReference { object, optional_relation: Some(p.optional_relation) })
        }
    }
}

impl PartialEq for SubjectReference {
    fn eq(&self, other: &Self) -> (r: bool) {
        self.object == other.object && match (&self.optional_relation, &other.optional_relation) {
            (Some(a), Some(b)) => *a == *b,
            (None, None) => true,
            _ => false,
        }
    }
}

impl PartialEqSpecImpl for SubjectReference {
    open spec fn obeys_eq_spec() -> bool {
        true
    }

    /// Two subjects are equal when their objects and their relations are;
    /// an absent relation equals no relation that is present.
    open spec fn eq_spec(&self, other: &Self) -> bool {
        self@ == other@
    }
}

impl Clone for SubjectReference {
    fn clone(&self) -> (r: Self)
        ensures
            r@ == self@,
    {
        proof {
            use_type_invariant(self);
        }
        SubjectReference {
            object: self.object.clone(),
            optional_relation: match &self.optional_relation {
                Some(rel) => Some(rel.clone()),
                None => None,
            },
        }
    }
}

/// Constructing an object reference succeeds exactly for a non-empty type
/// and a non-empty id, and then holds exactly those; with an empty type or
/// id it fails as an invalid argument.
pub proof fn lemma_object_reference_new(object_type: Seq<char>, object_id: Seq<char>)
    ensures
        object_type.len() > 0 && object_id.len() > 0 ==> ObjectReferenceView::new(
            object_type,
            object_id,
        ) == Ok::<ObjectReferenceView, ErrorView>(ObjectReferenceView { object_type, object_id }),
        object_type.len() == 0 || object_id.len() == 0 ==> ObjectReferenceView::new(
            object_type,
            object_id,
        ) matches Err(ErrorView::InvalidArgument(_)),
        ObjectReferenceView::new(object_type, object_id) matches Ok(r) ==> r.is_valid(),
{
}

/// Constructing a subject fails, as an invalid argument, exactly for a
/// relation that is present but empty; otherwise it succeeds and holds the
/// object and the relation given, an absent relation staying absent.
pub proof fn lemma_subject_reference_new(object: ObjectReferenceView, relation: Option<Seq<char>>)
    ensures
        relation == Some(Seq::<char>::empty()) ==> SubjectReferenceView::new(object, relation)
            matches Err(ErrorView::InvalidArgument(_)),
        relation != Some(Seq::<char>::empty()) ==> SubjectReferenceView::new(object, relation)
            == Ok::<SubjectReferenceView, ErrorView>(
            SubjectReferenceView { object, optional_relation: relation },
        ),
        object.is_valid() ==> (SubjectReferenceView::new(object, relation) matches Ok(s)
            ==> s.is_valid()),
{
    if let Some(rel) = relation {
        if rel.len() == 0 {
            assert(rel =~= Seq::<char>::empty());
        }
    }
}

/// A wire reference that fails to decode fails as a malformed message, and
/// one that decodes is valid.
pub proof fn lemma_reference_decode_failure(
    o: proto::base::ObjectReferenceView,
    s: proto::base::SubjectReferenceView,
)
    ensures
        ObjectReferenceView::from_proto(o) matches Err(e) ==> e is Serialization,
        ObjectReferenceView::from_proto(o) matches Ok(r) ==> r.is_valid(),
        SubjectReferenceView::from_proto(s) matches Err(e) ==> e is Serialization,
        SubjectReferenceView::from_proto(s) matches Ok(r) ==> r.is_valid(),
{
}

/// Decoding the wire form of a valid object reference gives it back.
pub proof fn lemma_object_reference_roundtrip(r: ObjectReferenceView)
    requires
        r.is_valid(),
    ensures
        ObjectReferenceView::from_proto(r.to_proto()) == Ok::<ObjectReferenceView, ErrorView>(r),
{
}

/// Decoding the wire form of a valid subject reference gives it back: the
/// empty relation on the wire and the absent relation stand for each other,
/// and no valid subject carries an empty relation.
pub proof fn lemma_subject_reference_roundtrip(s: SubjectReferenceView)
    requires
        s.is_valid(),
    ensures
        SubjectReferenceView::from_proto(s.to_proto()) == Ok::<SubjectReferenceView, ErrorView>(s),
{
}

} // verus!
