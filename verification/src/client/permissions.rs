//! Requests of the permissions service: check, write, delete, lookups, read
//! and tree expansion.
//!
//! Each request is created with its required parameters, refined by
//! chainable calls, and consumed by `into_request`, which hands out the wire
//! message to send. Nothing is sent from here.

use crate::error::{result_view, Error, ErrorView};
use crate::model::{option_view, seq_view};
use crate::proto;
use crate::proto::permission::{
    CheckPermissionRequestView, DeleteRelationshipsRequestView, ExpandPermissionTreeRequestView,
    LookupResourcesRequestView, LookupSubjectsRequestView, ReadRelationshipsRequestView,
    WriteRelationshipsRequestView,
};
use crate::proto::value::StructView;
use crate::types::consistency::Consistency;
use crate::types::context::{encode_entries, ContextMap};
use crate::types::filter::RelationshipFilter;
use crate::types::permission::{
    required_token, token_from_proto, PermissionResult, PermissionResultView, PermissionTree,
    PermissionTreeView,
};
use crate::types::reference::{ObjectReference, SubjectReference};
use crate::types::relationship::{
    Precondition, PreconditionView, RelationshipUpdate, RelationshipUpdateView,
};
use crate::types::token::{attached_token, token_attached, ZedToken};
use vstd::prelude::*;

verus! {

/// The wire form of a caveat context.
pub open spec fn context_struct(context: Seq<crate::types::context::ContextEntryView>) -> StructView {
    StructView { fields: encode_entries(context) }
}

/// The wire forms of a list of updates, in order.
pub open spec fn encode_updates(updates: Seq<RelationshipUpdateView>) -> Seq<
    proto::base::RelationshipUpdateView,
> {
    Seq::new(updates.len(), |i: int| updates[i].to_proto())
}

/// The wire forms of a list of preconditions, in order.
pub open spec fn encode_preconditions(preconditions: Seq<PreconditionView>) -> Seq<
    proto::base::PreconditionView,
> {
    Seq::new(preconditions.len(), |i: int| preconditions[i].to_proto())
}

/// Converts a list of updates to their wire forms.
fn updates_to_proto(updates: &Vec<RelationshipUpdate>) -> (r: Vec<proto::RelationshipUpdate>)
    ensures
        seq_view(r@) == encode_updates(seq_view(updates@)),
{
    let mut out: Vec<proto::RelationshipUpdate> = Vec::new();
    let mut i: usize = 0;
    while i < updates.len()
        invariant
            i <= updates.len(),
            out@.len() == i,
            forall|j: int| 0 <= j < i ==> out@[j]@ == updates@[j]@.to_proto(),
        decreases updates.len() - i,
    {
        out.push(updates[i].to_proto());
        i = i + 1;
    }
    assert(seq_view(out@) =~= encode_updates(seq_view(updates@)));
    out
}

/// Converts a list of preconditions to their wire forms.
fn preconditions_to_proto(preconditions: &Vec<Precondition>) -> (r: Vec<proto::Precondition>)
    ensures
        seq_view(r@) == encode_preconditions(seq_view(preconditions@)),
{
    let mut out: Vec<proto::Precondition> = Vec::new();
    let mut i: usize = 0;
    while i < preconditions.len()
        invariant
            i <= preconditions.len(),
            out@.len() == i,
            forall|j: int| 0 <= j < i ==> out@[j]@ == preconditions@[j]@.to_proto(),
        decreases preconditions.len() - i,
    {
        out.push(preconditions[i].to_proto());
        i = i + 1;
    }
    assert(seq_view(out@) =~= encode_preconditions(seq_view(preconditions@)));
    out
}

/// A permission check in preparation.
#[derive(Debug)]
pub struct CheckPermissionRequest {
    request: proto::CheckPermissionRequest,
}

impl View for CheckPermissionRequest {
    type V = CheckPermissionRequestView;

    closed spec fn view(&self) -> CheckPermissionRequestView {
        self.request@
    }
}

impl CheckPermissionRequest {
    /// Prepares a check of whether `subject` has `permission` on `resource`.
    /// No consistency mode and no caveat context are set.
    pub fn new(resource: &ObjectReference, permission: &str, subject: &SubjectReference) -> (r:
        CheckPermissionRequest)
        ensures
            r@ == (CheckPermissionRequestView {
                consistency: None,
                resource: Some(resource@.to_proto()),
                permission: permission@,
                subject: Some(subject@.to_proto()),
                context: None,
                with_tracing: false,
            }),
    {
        CheckPermissionRequest {
            request: proto::CheckPermissionRequest {
                consistency: None,
                resource: Some(resource.to_proto()),
                permission: permission.to_owned(),
                subject: Some(subject.to_proto()),
                context: None,
                with_tracing: false,
            },
        }
    }

    /// Sets the consistency mode for this request.
    pub fn consistency(self, c: Consistency) -> (r: CheckPermissionRequest)
        ensures
            r@ == (CheckPermissionRequestView { consistency: Some(c@.to_proto()), ..self@ }),
    {
        let mut request = self.request;
        request.consistency = Some(c.to_proto());
        CheckPermissionRequest { request }
    }

    /// Sets the caveat evaluation context for this request.
    pub fn context(self, ctx: ContextMap) -> (r: CheckPermissionRequest)
        ensures
            r@ == (CheckPermissionRequestView { context: Some(context_struct(ctx@)), ..self@ }),
    {
        let mut request = self.request;
        request.context = Some(ctx.to_proto());
        CheckPermissionRequest { request }
    }

    /// Consumes the request and hands out the wire message to send.
    pub fn into_request(self) -> (p: proto::CheckPermissionRequest)
        ensures
            p@ == self@,
    {
        self.request
    }

    /// Decodes the answer to a check.
    pub fn decode(response: proto::CheckPermissionResponse) -> (r: Result<
        PermissionResult,
        Error,
    >)
        ensures
            result_view(r) == PermissionResultView::from_check_response(
                response@.permissionship,
                response@.partial_caveat_info,
            ),
    {
        PermissionResult::from_check_response(
            response.permissionship,
            response.partial_caveat_info,
        )
    }

    /// Decodes the answer to a check together with the revision at which
    /// the check ran, where the server names one.
    pub fn decode_with_token(response: proto::CheckPermissionResponse) -> (r: Result<
        (PermissionResult, Option<ZedToken>),
        Error,
    >)
        ensures
            match r {
                Ok((permission, checked_at)) => {
                    &&& PermissionResultView::from_check_response(
                        response@.permissionship,
                        response@.partial_caveat_info,
                    ) == Ok::<PermissionResultView, ErrorView>(permission@)
                    &&& option_view(checked_at) == attached_token(response@.checked_at)
                },
                Err(e) => PermissionResultView::from_check_response(
                    response@.permissionship,
                    response@.partial_caveat_info,
                ) == Err::<PermissionResultView, ErrorView>(e@),
            },
    {
        match PermissionResult::from_check_response(
            response.permissionship,
            response.partial_caveat_info,
        ) {
            Err(e) => Err(e),
            Ok(permission) => Ok((permission, token_attached(response.checked_at))),
        }
    }
}

/// A write of relationship updates in preparation.
#[derive(Debug)]
pub struct WriteRelationshipsRequest {
    request: proto::WriteRelationshipsRequest,
}

impl View for WriteRelationshipsRequest {
    type V = WriteRelationshipsRequestView;

    closed spec fn view(&self) -> WriteRelationshipsRequestView {
        self.request@
    }
}

/// What validating a prepared write yields: a write without updates fails
/// before anything is sent.
pub open spec fn validated_write(request: WriteRelationshipsRequestView) -> Result<
    WriteRelationshipsRequestView,
    ErrorView,
> {
    if request.updates.len() == 0 {
        Err(ErrorView::InvalidArgument("updates must not be empty"@))
    } else {
        Ok(request)
    }
}

/// A write without updates is rejected as an invalid argument, whatever its
/// preconditions, and a write with updates is handed out unchanged.
pub proof fn lemma_empty_write_rejected(request: WriteRelationshipsRequestView)
    ensures
        request.updates.len() == 0 ==> validated_write(request) == Err::<
            WriteRelationshipsRequestView,
            ErrorView,
        >(ErrorView::InvalidArgument("updates must not be empty"@)),
        request.updates.len() > 0 ==> validated_write(request) == Ok::<
            WriteRelationshipsRequestView,
            ErrorView,
        >(request),
{
}

impl WriteRelationshipsRequest {
    /// Prepares an atomic write of `updates`, without preconditions.
    pub fn new(updates: Vec<RelationshipUpdate>) -> (r: WriteRelationshipsRequest)
        ensures
            r@ == (WriteRelationshipsRequestView {
                updates: encode_updates(seq_view(updates@)),
                optional_preconditions: Seq::empty(),
                optional_transaction_metadata: None,
            }),
    {
        let r = WriteRelationshipsRequest {
            request: proto::WriteRelationshipsRequest {
                updates: updates_to_proto(&updates),
                optional_preconditions: Vec::new(),
                optional_transaction_metadata: None,
            },
        };
        assert(r@.optional_preconditions =~= Seq::empty());
        r
    }

    /// Sets the preconditions that must be satisfied before the write
    /// commits.
    pub fn preconditions(self, preconditions: Vec<Precondition>) -> (r: WriteRelationshipsRequest)
        ensures
            r@ == (WriteRelationshipsRequestView {
                optional_preconditions: encode_preconditions(seq_view(preconditions@)),
                ..self@
            }),
    {
        let mut request = self.request;
        request.optional_preconditions = preconditions_to_proto(&preconditions);
        WriteRelationshipsRequest { request }
    }

    /// Consumes the request and hands out the wire message to send, or the
    /// failure that keeps it from being sent: a write needs at least one
    /// update.
    pub fn into_request(self) -> (r: Result<proto::WriteRelationshipsRequest, Error>)
        ensures
            match r {
                Ok(p) => validated_write(self@) == Ok::<WriteRelationshipsRequestView, ErrorView>(
                    p@,
                ),
                Err(e) => validated_write(self@) == Err::<WriteRelationshipsRequestView, ErrorView>(
                    e@,
                ),
            },
    {
        if self.request.updates.len() == 0 {
            Err(Error::invalid_argument("updates must not be empty"))
        } else {
            Ok(self.request)
        }
    }

    /// Decodes the answer to a write: the revision at which it committed.
    pub fn decode(response: proto::WriteRelationshipsResponse) -> (r: Result<ZedToken, Error>)
        ensures
            result_view(r) == required_token(response@.written_at, "missing written_at token"@),
    {
        token_from_proto(response.written_at, "missing written_at token")
    }
}

/// A delete of relationships in preparation.
#[derive(Debug)]
pub struct DeleteRelationshipsRequest {
    request: proto::DeleteRelationshipsRequest,
}

impl View for DeleteRelationshipsRequest {
    type V = DeleteRelationshipsRequestView;

    closed spec fn view(&self) -> DeleteRelationshipsRequestView {
        self.request@
    }
}

impl DeleteRelationshipsRequest {
    /// Prepares the deletion of every relationship matching `filter`,
    /// without preconditions, without limit and all or nothing.
    pub fn new(filter: RelationshipFilter) -> (r: DeleteRelationshipsRequest)
        ensures
            r@ == (DeleteRelationshipsRequestView {
                relationship_filter: Some(filter@.to_proto()),
                optional_preconditions: Seq::empty(),
                optional_limit: 0,
                optional_allow_partial_deletions: false,
                optional_transaction_metadata: None,
            }),
    {
        let r = DeleteRelationshipsRequest {
            request: proto::DeleteRelationshipsRequest {
                relationship_filter: Some(filter.to_proto()),
                optional_preconditions: Vec::new(),
                optional_limit: 0,
                optional_allow_partial_deletions: false,
                optional_transaction_metadata: None,
            },
        };
        assert(r@.optional_preconditions =~= Seq::empty());
        r
    }

    /// Sets the preconditions that must be satisfied before the delete
    /// commits.
    pub fn preconditions(self, preconditions: Vec<Precondition>) -> (r: DeleteRelationshipsRequest)
        ensures
            r@ == (DeleteRelationshipsRequestView {
                optional_preconditions: encode_preconditions(seq_view(preconditions@)),
                ..self@
            }),
    {
        let mut request = self.request;
        request.optional_preconditions = preconditions_to_proto(&preconditions);
        DeleteRelationshipsRequest { request }
    }

    /// Consumes the request and hands out the wire message to send.
    pub fn into_request(self) -> (p: proto::DeleteRelationshipsRequest)
        ensures
            p@ == self@,
    {
        self.request
    }

    /// Decodes the answer to a delete: the revision at which it committed.
    pub fn decode(response: proto::DeleteRelationshipsResponse) -> (r: Result<ZedToken, Error>)
        ensures
            result_view(r) == required_token(response@.deleted_at, "missing deleted_at token"@),
    {
        token_from_proto(response.deleted_at, "missing deleted_at token")
    }
}

/// A resource lookup in preparation. Its answer is a stream, each element
/// of which is decoded by
/// [`LookupResourceResult::from_proto`](crate::LookupResourceResult::from_proto).
#[derive(Debug)]
pub struct LookupResourcesRequest {
    request: proto::LookupResourcesRequest,
}

impl View for LookupResourcesRequest {
    type V = LookupResourcesRequestView;

    closed spec fn view(&self) -> LookupResourcesRequestView {
        self.request@
    }
}

impl LookupResourcesRequest {
    /// Prepares the lookup of the resources of type `resource_type` on
    /// which `subject` has `permission`.
    pub fn new(resource_type: &str, permission: &str, subject: &SubjectReference) -> (r:
        LookupResourcesRequest)
        ensures
            r@ == (LookupResourcesRequestView {
                consistency: None,
                resource_object_type: resource_type@,
                permission: permission@,
                subject: Some(subject@.to_proto()),
                context: None,
                optional_limit: 0,
                optional_cursor: None,
            }),
    {
        LookupResourcesRequest {
            request: proto::LookupResourcesRequest {
                consistency: None,
                resource_object_type: resource_type.to_owned(),
                permission: permission.to_owned(),
                subject: Some(subject.to_proto()),
                context: None,
                optional_limit: 0,
                optional_cursor: None,
            },
        }
    }

    /// Sets the consistency mode.
    pub fn consistency(self, c: Consistency) -> (r: LookupResourcesRequest)
        ensures
            r@ == (LookupResourcesRequestView { consistency: Some(c@.to_proto()), ..self@ }),
    {
        let mut request = self.request;
        request.consistency = Some(c.to_proto());
        LookupResourcesRequest { request }
    }

    /// Sets the caveat evaluation context.
    pub fn context(self, ctx: ContextMap) -> (r: LookupResourcesRequest)
        ensures
            r@ == (LookupResourcesRequestView { context: Some(context_struct(ctx@)), ..self@ }),
    {
        let mut request = self.request;
        request.context = Some(ctx.to_proto());
        LookupResourcesRequest { request }
    }

    /// Consumes the request and hands out the wire message to send.
    pub fn into_request(self) -> (p: proto::LookupResourcesRequest)
        ensures
            p@ == self@,
    {
        self.request
    }
}

/// A subject lookup in preparation. Its answer is a stream, each element of
/// which is decoded by
/// [`LookupSubjectResult::from_proto`](crate::LookupSubjectResult::from_proto).
#[derive(Debug)]
pub struct LookupSubjectsRequest {
    request: proto::LookupSubjectsRequest,
}

impl View for LookupSubjectsRequest {
    type V = LookupSubjectsRequestView;

    closed spec fn view(&self) -> LookupSubjectsRequestView {
        self.request@
    }
}

impl LookupSubjectsRequest {
    /// Prepares the lookup of the subjects of type `subject_type` that have
    /// `permission` on `resource`.
    pub fn new(resource: &ObjectReference, permission: &str, subject_type: &str) -> (r:
        LookupSubjectsRequest)
        ensures
            r@ == (LookupSubjectsRequestView {
                consistency: None,
                resource: Some(resource@.to_proto()),
                permission: permission@,
                subject_object_type: subject_type@,
                optional_subject_relation: Seq::empty(),
                context: None,
                optional_concrete_limit: 0,
                optional_cursor: None,
                wildcard_option: 0,
            }),
    {
        LookupSubjectsRequest {
            request: proto::LookupSubjectsRequest {
                consistency: None,
                resource: Some(resource.to_proto()),
                permission: permission.to_owned(),
                subject_object_type: subject_type.to_owned(),
                optional_subject_relation: String::new(),
                context: None,
                optional_concrete_limit: 0,
                optional_cursor: None,
                wildcard_option: 0,
            },
        }
    }

    /// Sets the consistency mode.
    pub fn consistency(self, c: Consistency) -> (r: LookupSubjectsRequest)
        ensures
            r@ == (LookupSubjectsRequestView { consistency: Some(c@.to_proto()), ..self@ }),
    {
        let mut request = self.request;
        request.consistency = Some(c.to_proto());
        LookupSubjectsRequest { request }
    }

    /// Sets the caveat evaluation context.
    pub fn context(self, ctx: ContextMap) -> (r: LookupSubjectsRequest)
        ensures
            r@ == (LookupSubjectsRequestView { context: Some(context_struct(ctx@)), ..self@ }),
    {
        let mut request = self.request;
        request.context = Some(ctx.to_proto());
        LookupSubjectsRequest { request }
    }

    /// Consumes the request and hands out the wire message to send.
    pub fn into_request(self) -> (p: proto::LookupSubjectsRequest)
        ensures
            p@ == self@,
    {
        self.request
    }
}

/// A read of relationships in preparation. Its answer is a stream, each
/// element of which is decoded by
/// [`ReadRelationshipResult::from_proto`](crate::ReadRelationshipResult::from_proto).
#[derive(Debug)]
pub struct ReadRelationshipsRequest {
    request: proto::ReadRelationshipsRequest,
}

impl View for ReadRelationshipsRequest {
    type V = ReadRelationshipsRequestView;

    closed spec fn view(&self) -> ReadRelationshipsRequestView {
        self.request@
    }
}

impl ReadRelationshipsRequest {
    /// Prepares the read of the relationships matching `filter`.
    pub fn new(filter: RelationshipFilter) -> (r: ReadRelationshipsRequest)
        ensures
            r@ == (ReadRelationshipsRequestView {
                consistency: None,
                relationship_filter: Some(filter@.to_proto()),
                optional_limit: 0,
                optional_cursor: None,
            }),
    {
        ReadRelationshipsRequest {
            request: proto::ReadRelationshipsRequest {
                consistency: None,
                relationship_filter: Some(filter.to_proto()),
                optional_limit: 0,
                optional_cursor: None,
            },
        }
    }

    /// Sets the consistency mode.
    pub fn consistency(self, c: Consistency) -> (r: ReadRelationshipsRequest)
        ensures
            r@ == (ReadRelationshipsRequestView { consistency: Some(c@.to_proto()), ..self@ }),
    {
        let mut request = self.request;
        request.consistency = Some(c.to_proto());
        ReadRelationshipsRequest { request }
    }

    /// Consumes the request and hands out the wire message to send.
    pub fn into_request(self) -> (p: proto::ReadRelationshipsRequest)
        ensures
            p@ == self@,
    {
        self.request
    }
}

/// A tree expansion in preparation.
#[derive(Debug)]
pub struct ExpandPermissionTreeRequest {
    request: proto::ExpandPermissionTreeRequest,
}

impl View for ExpandPermissionTreeRequest {
    type V = ExpandPermissionTreeRequestView;

    closed spec fn view(&self) -> ExpandPermissionTreeRequestView {
        self.request@
    }
}

/// What decoding the answer to a tree expansion yields: the root is
/// required, and decoded as a tree.
pub open spec fn decode_expansion(
    response: proto::permission::ExpandPermissionTreeResponseView,
) -> Result<PermissionTreeView, ErrorView> {
    match response.tree_root {
        None => Err(ErrorView::Serialization("missing tree_root"@)),
        Some(root) => PermissionTreeView::from_proto(root),
    }
}

impl ExpandPermissionTreeRequest {
    /// Prepares the expansion of the tree by which `permission` on
    /// `resource` is derived.
    pub fn new(resource: &ObjectReference, permission: &str) -> (r: ExpandPermissionTreeRequest)
        ensures
            r@ == (ExpandPermissionTreeRequestView {
                consistency: None,
                resource: Some(resource@.to_proto()),
                permission: permission@,
            }),
    {
        ExpandPermissionTreeRequest {
            request: proto::ExpandPermissionTreeRequest {
                consistency: None,
                resource: Some(resource.to_proto()),
                permission: permission.to_owned(),
            },
        }
    }

    /// Sets the consistency mode.
    pub fn consistency(self, c: Consistency) -> (r: ExpandPermissionTreeRequest)
        ensures
            r@ == (ExpandPermissionTreeRequestView { consistency: Some(c@.to_proto()), ..self@ }),
    {
        let mut request = self.request;
        request.consistency = Some(c.to_proto());
        ExpandPermissionTreeRequest { request }
    }

    /// Consumes the request and hands out the wire message to send.
    pub fn into_request(self) -> (p: proto::ExpandPermissionTreeRequest)
        ensures
            p@ == self@,
    {
        self.request
    }

    /// Decodes the answer to a tree expansion.
    pub fn decode(response: proto::ExpandPermissionTreeResponse) -> (r: Result<
        PermissionTree,
        Error,
    >)
        ensures
            result_view(r) == decode_expansion(response@),
    {
        match response.tree_root {
            None => Err(Error::serialization("missing tree_root")),
            Some(root) => PermissionTree::from_proto(root),
        }
    }

    /// Decodes the answer to a tree expansion together with the revision at
    /// which the tree was expanded, where the server names one.
    pub fn decode_with_token(response: proto::ExpandPermissionTreeResponse) -> (r: Result<
        (PermissionTree, Option<ZedToken>),
        Error,
    >)
        ensures
            match r {
                Ok((tree, expanded_at)) => {
                    &&& decode_expansion(response@) == Ok::<PermissionTreeView, ErrorView>(tree@)
                    &&& option_view(expanded_at) == attached_token(response@.expanded_at)
                },
                Err(e) => decode_expansion(response@) == Err::<PermissionTreeView, ErrorView>(e@),
            },
    {
        let expanded_at = token_attached(response.expanded_at);
        match response.tree_root {
            None => Err(Error::serialization("missing tree_root")),
            Some(root) => match PermissionTree::from_proto(root) {
                Err(e) => Err(e),
                Ok(tree) => Ok((tree, expanded_at)),
            },
        }
    }
}

} // verus!
