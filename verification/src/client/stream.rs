//! Streamed answers, one step at a time.
//!
//! A streamed answer is pulled by its consumer. For each pull the transport
//! hands out an event: a message, or a failure with its status. The
//! functions here decide what the stream yields for the event and whether
//! it goes on: a message is decoded into its elements, and a failure to
//! decode is an element like any other; a failure of the transport is
//! yielded as one error element, after which the stream ends.

use crate::client::experimental::{flatten_batch, flattens};
use crate::error::{result_view, status_error, Error};
use crate::proto;
use crate::types::filter::{ReadRelationshipResult, ReadRelationshipResultView};
use crate::types::permission::{
    LookupResourceResult, LookupResourceResultView, LookupSubjectResult, LookupSubjectResultView,
};
use crate::types::relationship::Relationship;
use crate::types::watch::{WatchEvent, WatchEventView};
use vstd::prelude::*;

verus! {

/// What the transport hands out for one pull of a streamed answer.
#[derive(Debug)]
pub enum StreamEvent<M> {
    /// The next message of the stream.
    Message(M),
    /// The transport failed, with the wire code and message of its status.
    Failure {
        /// The status code as an integer.
        code: i32,
        /// Human-readable message.
        message: String,
    },
}

/// What a stream does for one event.
#[derive(Debug)]
pub struct StreamStep<T> {
    /// The elements to yield, in order.
    pub items: Vec<Result<T, Error>>,
    /// Whether the stream ends after these elements.
    pub done: bool,
}

/// Whether `step` is the single error element that ends a stream after the
/// transport failed with the given status.
pub open spec fn ends_with_failure<T>(step: StreamStep<T>, code: i32, message: Seq<char>) -> bool {
    &&& step.done
    &&& step.items@.len() == 1
    &&& step.items@[0] matches Err(e) && e@ == status_error(code, message)
}

/// The step that ends a stream after a failure of the transport.
fn failure_step<T>(code: i32, message: String) -> (step: StreamStep<T>)
    ensures
        ends_with_failure(step, code, message@),
{
    let mut items: Vec<Result<T, Error>> = Vec::new();
    items.push(Err(Error::from_status_code(code, message)));
    StreamStep { items, done: true }
}

/// The step of a stream that yields one element and goes on.
fn single_step<T>(item: Result<T, Error>) -> (step: StreamStep<T>)
    ensures
        !step.done,
        step.items@ == seq![item],
{
    let mut items: Vec<Result<T, Error>> = Vec::new();
    items.push(item);
    StreamStep { items, done: false }
}

/// One step of the answer to a resource lookup.
pub fn lookup_resources_step(event: StreamEvent<proto::LookupResourcesResponse>) -> (step:
    StreamStep<LookupResourceResult>)
    ensures
        match event {
            StreamEvent::Message(m) => {
                &&& !step.done
                &&& step.items@.len() == 1
                &&& result_view(step.items@[0]) == LookupResourceResultView::from_proto(m@)
            },
            StreamEvent::Failure { code, message } => ends_with_failure(step, code, message@),
        },
{
    match event {
        StreamEvent::Message(m) => single_step(LookupResourceResult::from_proto(m)),
        StreamEvent::Failure { code, message } => failure_step(code, message),
    }
}

/// One step of the answer to a subject lookup.
pub fn lookup_subjects_step(event: StreamEvent<proto::LookupSubjectsResponse>) -> (step: StreamStep<
    LookupSubjectResult,
>)
    ensures
        match event {
            StreamEvent::Message(m) => {
                &&& !step.done
                &&& step.items@.len() == 1
                &&& result_view(step.items@[0]) == LookupSubjectResultView::from_proto(m@)
            },
            StreamEvent::Failure { code, message } => ends_with_failure(step, code, message@),
        },
{
    match event {
        StreamEvent::Message(m) => single_step(LookupSubjectResult::from_proto(m)),
        StreamEvent::Failure { code, message } => failure_step(code, message),
    }
}

/// One step of the answer to a read of relationships.
pub fn read_relationships_step(event: StreamEvent<proto::ReadRelationshipsResponse>) -> (step:
    StreamStep<ReadRelationshipResult>)
    ensures
        match event {
            StreamEvent::Message(m) => {
                &&& !step.done
                &&& step.items@.len() == 1
                &&& result_view(step.items@[0]) == ReadRelationshipResultView::from_proto(m@)
            },
            StreamEvent::Failure { code, message } => ends_with_failure(step, code, message@),
        },
{
    match event {
        StreamEvent::Message(m) => single_step(ReadRelationshipResult::from_proto(m)),
        StreamEvent::Failure { code, message } => failure_step(code, message),
    }
}

/// One step of the change stream. The stream is not resumed after a
/// failure: resuming is up to the caller, from the last checkpoint.
pub fn watch_step(event: StreamEvent<proto::WatchResponse>) -> (step: StreamStep<WatchEvent>)
    ensures
        match event {
            StreamEvent::Message(m) => {
                &&& !step.done
                &&& step.items@.len() == 1
                &&& result_view(step.items@[0]) == WatchEventView::from_proto(m@)
            },
            StreamEvent::Failure { code, message } => ends_with_failure(step, code, message@),
        },
{
    match event {
        StreamEvent::Message(m) => single_step(WatchEvent::from_proto(m)),
        StreamEvent::Failure { code, message } => failure_step(code, message),
    }
}

/// One step of the answer to a bulk export: a batch is flattened into one
/// element per relationship, and the stream goes on whatever the elements
/// are.
pub fn export_step(event: StreamEvent<proto::ExportBulkRelationshipsResponse>) -> (step: StreamStep<
    Relationship,
>)
    ensures
        match event {
            StreamEvent::Message(batch) => !step.done && flattens(
                batch@.relationships,
                step.items@,
            ),
            StreamEvent::Failure { code, message } => ends_with_failure(step, code, message@),
        },
{
    match event {
        StreamEvent::Message(batch) => StreamStep { items: flatten_batch(batch), done: false },
        StreamEvent::Failure { code, message } => failure_step(code, message),
    }
}

} // verus!
