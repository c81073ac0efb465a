//! Bulk operations: checking many permissions in one round trip, and
//! importing and exporting relationships in batches.

use crate::error::{result_view, status_error, Error, ErrorView};
use crate::model::{option_view, seq_view};
use crate::proto;
use crate::proto::bulk::{
    CheckBulkPermissionsPairView, CheckBulkPermissionsRequestItemView,
    CheckBulkPermissionsRequestView, ExportBulkRelationshipsRequestView, PairResponseView,
};
use crate::types::consistency::Consistency;
use crate::types::context::{ContextEntryView, ContextMap};
use crate::types::filter::RelationshipFilter;
use crate::types::permission::{PermissionResult, PermissionResultView};
use crate::types::reference::{
    ObjectReference, ObjectReferenceView, SubjectReference, SubjectReferenceView,
};
use crate::types::relationship::{Relationship, RelationshipView};
use crate::types::token::{attached_token, token_attached, ZedToken};
use vstd::prelude::*;

verus! {

/// Per-item result of a bulk check.
pub type CheckResult = Result<PermissionResult, Error>;

/// A single item in a bulk check request.
#[derive(Debug, Clone)]
pub struct BulkCheckItem {
    /// The resource to check.
    pub resource: ObjectReference,
    /// The permission to check.
    pub permission: String,
    /// The subject to check.
    pub subject: SubjectReference,
    /// Optional caveat context.
    pub context: Option<ContextMap>,
}

/// Mathematical model of [`BulkCheckItem`].
pub struct BulkCheckItemView {
    pub resource: ObjectReferenceView,
    pub permission: Seq<char>,
    pub subject: SubjectReferenceView,
    pub context: Option<Seq<ContextEntryView>>,
}

impl BulkCheckItemView {
    /// The wire form of an item.
    pub open spec fn to_proto(self) -> CheckBulkPermissionsRequestItemView {
        CheckBulkPermissionsRequestItemView {
            resource: Some(self.resource.to_proto()),
            permission: self.permission,
            subject: Some(self.subject.to_proto()),
            context: match self.context {
                Some(ctx) => Some(super::permissions::context_struct(ctx)),
                None => None,
            },
        }
    }
}

impl View for BulkCheckItem {
    type V = BulkCheckItemView;

    open spec fn view(&self) -> BulkCheckItemView {
        BulkCheckItemView {
            resource: self.resource@,
            permission: self.permission@,
            subject: self.subject@,
            context: option_view(self.context),
        }
    }
}

impl BulkCheckItem {
    /// Creates a new bulk check item, without caveat context.
    pub fn new(resource: ObjectReference, permission: &str, subject: SubjectReference) -> (item:
        BulkCheckItem)
        ensures
            item@ == (BulkCheckItemView {
                resource: resource@,
                permission: permission@,
                subject: subject@,
                context: None,
            }),
    {
        BulkCheckItem { resource, permission: permission.to_owned(), subject, context: None }
    }

    /// Sets caveat context for this check item.
    pub fn with_context(self, context: ContextMap) -> (item: BulkCheckItem)
        ensures
            item@ == (BulkCheckItemView { context: Some(context@), ..self@ }),
    {
        let mut item = self;
        item.context = Some(context);
        item
    }

    /// The wire form of this item.
    pub fn to_proto(&self) -> (p: proto::CheckBulkPermissionsRequestItem)
        ensures
            p@ == self@.to_proto(),
    {
        proto::CheckBulkPermissionsRequestItem {
            resource: Some(self.resource.to_proto()),
            permission: self.permission.clone(),
            subject: Some(self.subject.to_proto()),
            context: match &self.context {
                Some(ctx) => Some(ctx.to_proto()),
                None => None,
            },
        }
    }
}

/// The wire forms of a list of items, in order.
pub open spec fn encode_items(items: Seq<BulkCheckItemView>) -> Seq<
    CheckBulkPermissionsRequestItemView,
> {
    Seq::new(items.len(), |i: int| items[i].to_proto())
}

/// What the server's report for one item decodes to: the answer decodes as
/// the answer to a single check, a status becomes a status error, and a pair
/// without report is a failure of its own.
pub open spec fn decode_pair(pair: CheckBulkPermissionsPairView) -> Result<
    PermissionResultView,
    ErrorView,
> {
    match pair.response {
        Some(PairResponseView::Item(item)) => PermissionResultView::from_check_response(
            item.permissionship,
            item.partial_caveat_info,
        ),
        Some(PairResponseView::Error(status)) => Err(status_error(status.code, status.message)),
        None => Err(ErrorView::Serialization("missing response in bulk check pair"@)),
    }
}

/// Whether `results` are the pairs decoded one by one: as many results as
/// pairs, and each result decided by the pair at its index alone.
pub open spec fn decodes_pairs(
    pairs: Seq<CheckBulkPermissionsPairView>,
    results: Seq<CheckResult>,
) -> bool {
    &&& results.len() == pairs.len()
    &&& forall|i: int|
        0 <= i < pairs.len() ==> result_view(#[trigger] results[i]) == decode_pair(pairs[i])
}

/// The items of a bulk check are independent: two answers that agree in the
/// pair at an index decode to the same result at that index, whatever the
/// other pairs hold or fail with.
pub proof fn lemma_pairs_independent(
    pairs1: Seq<CheckBulkPermissionsPairView>,
    results1: Seq<CheckResult>,
    pairs2: Seq<CheckBulkPermissionsPairView>,
    results2: Seq<CheckResult>,
    i: int,
)
    requires
        decodes_pairs(pairs1, results1),
        decodes_pairs(pairs2, results2),
        0 <= i < pairs1.len(),
        i < pairs2.len(),
        pairs1[i] == pairs2[i],
    ensures
        result_view(results1[i]) == result_view(results2[i]),
{
}

/// Decodes the server's report for one item of a bulk check.
pub fn decode_check_pair(pair: proto::CheckBulkPermissionsPair) -> (r: CheckResult)
    ensures
        result_view(r) == decode_pair(pair@),
{
    match pair.response {
        Some(proto::PairResponse::Item(item)) => PermissionResult::from_check_response(
            item.permissionship,
            item.partial_caveat_info,
        ),
        Some(proto::PairResponse::Error(status)) => Err(
            Error::from_status_code(status.code, status.message),
        ),
        None => Err(Error::serialization("missing response in bulk check pair")),
    }
}

/// Decodes the pairs of a bulk check one by one.
fn decode_pairs(pairs: Vec<proto::CheckBulkPermissionsPair>) -> (r: Vec<CheckResult>)
    ensures
        decodes_pairs(seq_view(pairs@), r@),
{
    let mut results: Vec<CheckResult> = Vec::new();
    for pair in iter: pairs
        invariant
            iter.seq() == pairs@,
            results@.len() == iter.index(),
            forall|j: int|
                0 <= j < results@.len() ==> result_view(#[trigger] results@[j]) == decode_pair(
                    pairs@[j]@,
                ),
    {
        results.push(decode_check_pair(pair));
    }
    results
}

/// A bulk check in preparation.
#[derive(Debug)]
pub struct BulkCheckPermissionsRequest {
    request: proto::CheckBulkPermissionsRequest,
}

impl View for BulkCheckPermissionsRequest {
    type V = CheckBulkPermissionsRequestView;

    closed spec fn view(&self) -> CheckBulkPermissionsRequestView {
        self.request@
    }
}

impl BulkCheckPermissionsRequest {
    /// Prepares the check of `items` in a single round trip. The items are
    /// sent in the order given.
    pub fn new(items: Vec<BulkCheckItem>) -> (r: BulkCheckPermissionsRequest)
        ensures
            r@ == (CheckBulkPermissionsRequestView {
                consistency: None,
                items: encode_items(seq_view(items@)),
                with_tracing: false,
            }),
    {
        let mut wire: Vec<proto::CheckBulkPermissionsRequestItem> = Vec::new();
        let mut i: usize = 0;
        while i < items.len()
            invariant
                i <= items.len(),
                wire@.len() == i,
                forall|j: int| 0 <= j < i ==> wire@[j]@ == items@[j]@.to_proto(),
            decreases items.len() - i,
        {
            wire.push(items[i].to_proto());
            i = i + 1;
        }
        let r = BulkCheckPermissionsRequest {
            request: proto::CheckBulkPermissionsRequest {
                consistency: None,
                items: wire,
                with_tracing: false,
            },
        };
        assert(r@.items =~= encode_items(seq_view(items@)));
        r
    }

    /// Sets the consistency mode.
    pub fn consistency(self, c: Consistency) -> (r: BulkCheckPermissionsRequest)
        ensures
            r@ == (CheckBulkPermissionsRequestView { consistency: Some(c@.to_proto()), ..self@ }),
    {
        let mut request = self.request;
        request.consistency = Some(c.to_proto());
        BulkCheckPermissionsRequest { request }
    }

    /// Consumes the request and hands out the wire message to send.
    pub fn into_request(self) -> (p: proto::CheckBulkPermissionsRequest)
        ensures
            p@ == self@,
    {
        self.request
    }

    /// Decodes the answer to a bulk check: one result for each pair, at the
    /// pair's index. The pairs are decoded in isolation: no failure of one
    /// touches the result of another.
    pub fn decode(response: proto::CheckBulkPermissionsResponse) -> (r: Vec<CheckResult>)
        ensures
            decodes_pairs(response@.pairs, r@),
    {
        decode_pairs(response.pairs)
    }

    /// Decodes the answer to a bulk check together with the revision at
    /// which the checks ran, where the server names one.
    pub fn decode_with_token(response: proto::CheckBulkPermissionsResponse) -> (r: (
        Vec<CheckResult>,
        Option<ZedToken>,
    ))
        ensures
            decodes_pairs(response@.pairs, r.0@),
            option_view(r.1) == attached_token(response@.checked_at),
    {
        let checked_at = token_attached(response.checked_at);
        (decode_pairs(response.pairs), checked_at)
    }
}

/// The message of a bulk import that carries one relationship.
pub fn import_message(relationship: &Relationship) -> (p: proto::ImportBulkRelationshipsRequest)
    ensures
        p@.relationships == seq![relationship@.to_proto()],
{
    let mut relationships: Vec<proto::Relationship> = Vec::new();
    relationships.push(relationship.to_proto());
    let p = proto::ImportBulkRelationshipsRequest { relationships };
    assert(p@.relationships =~= seq![relationship@.to_proto()]);
    p
}

/// Decodes the answer to a bulk import: the number of relationships loaded.
pub fn imported_count(response: proto::ImportBulkRelationshipsResponse) -> (n: u64)
    ensures
        n == response@.num_loaded,
{
    response.num_loaded
}

/// A bulk export in preparation. Its answer is a stream of batches, each of
/// which [`flatten_batch`] turns into one result per relationship.
#[derive(Debug)]
pub struct BulkExportRelationshipsRequest {
    request: proto::ExportBulkRelationshipsRequest,
}

impl View for BulkExportRelationshipsRequest {
    type V = ExportBulkRelationshipsRequestView;

    closed spec fn view(&self) -> ExportBulkRelationshipsRequestView {
        self.request@
    }
}

impl BulkExportRelationshipsRequest {
    /// Prepares the export of the relationships matching `filter`.
    pub fn new(filter: RelationshipFilter) -> (r: BulkExportRelationshipsRequest)
        ensures
            r@ == (ExportBulkRelationshipsRequestView {
                consistency: None,
                optional_limit: 0,
                optional_cursor: None,
                optional_relationship_filter: Some(filter@.to_proto()),
            }),
    {
        BulkExportRelationshipsRequest {
            request: proto::ExportBulkRelationshipsRequest {
                consistency: None,
                optional_limit: 0,
                optional_cursor: None,
                optional_relationship_filter: Some(filter.to_proto()),
            },
        }
    }

    /// Sets the consistency mode.
    pub fn consistency(self, c: Consistency) -> (r: BulkExportRelationshipsRequest)
        ensures
            r@ == (ExportBulkRelationshipsRequestView {
                consistency: Some(c@.to_proto()),
                ..self@
            }),
    {
        let mut request = self.request;
        request.consistency = Some(c.to_proto());
        BulkExportRelationshipsRequest { request }
    }

    /// Consumes the request and hands out the wire message to send.
    pub fn into_request(self) -> (p: proto::ExportBulkRelationshipsRequest)
        ensures
            p@ == self@,
    {
        self.request
    }
}

/// Whether `results` are the relationships of a batch decoded one by one:
/// as many results as relationships, in the same order, and each result
/// decided by the relationship at its index alone.
pub open spec fn flattens(
    relationships: Seq<proto::base::RelationshipView>,
    results: Seq<Result<Relationship, Error>>,
) -> bool {
    &&& results.len() == relationships.len()
    &&& forall|i: int|
        0 <= i < relationships.len() ==> result_view(#[trigger] results[i])
            == RelationshipView::from_proto(relationships[i])
}

/// The elements of a flattened batch are independent: two batches that
/// agree in the relationship at an index yield the same element at that
/// index, whatever the other relationships hold or fail with.
pub proof fn lemma_flattened_independent(
    batch1: Seq<proto::base::RelationshipView>,
    results1: Seq<Result<Relationship, Error>>,
    batch2: Seq<proto::base::RelationshipView>,
    results2: Seq<Result<Relationship, Error>>,
    i: int,
)
    requires
        flattens(batch1, results1),
        flattens(batch2, results2),
        0 <= i < batch1.len(),
        i < batch2.len(),
        batch1[i] == batch2[i],
    ensures
        result_view(results1[i]) == result_view(results2[i]),
{
}

/// Flattens one batch of a bulk export into one stream element per
/// relationship, in the order of the batch. A relationship that fails to
/// decode yields an error at its position; those after it are decoded all
/// the same.
pub fn flatten_batch(batch: proto::ExportBulkRelationshipsResponse) -> (r: Vec<
    Result<Relationship, Error>,
>)
    ensures
        flattens(batch@.relationships, r@),
{
    let mut results: Vec<Result<Relationship, Error>> = Vec::new();
    for relationship in iter: batch.relationships
        invariant
            iter.seq() == batch.relationships@,
            results@.len() == iter.index(),
            forall|j: int|
                0 <= j < results@.len() ==> result_view(#[trigger] results@[j])
                    == RelationshipView::from_proto(batch.relationships@[j]@),
    {
        results.push(Relationship::from_proto(relationship));
    }
    results
}

} // verus!
