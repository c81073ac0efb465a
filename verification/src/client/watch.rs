//! The request for the stream of relationship changes.

use crate::model::seq_view;
use crate::proto;
use crate::proto::watch::WatchRequestView;
use crate::types::token::ZedToken;
use vstd::prelude::*;

verus! {

/// A watch in preparation. Its answer is a long-lived stream, each element
/// of which is decoded by [`WatchEvent::from_proto`](crate::WatchEvent::from_proto).
/// The stream is not resumed by itself: after a failure, a new watch is
/// started from the checkpoint of the last event received.
#[derive(Debug)]
pub struct WatchRequest {
    request: proto::WatchRequest,
}

impl View for WatchRequest {
    type V = WatchRequestView;

    closed spec fn view(&self) -> WatchRequestView {
        self.request@
    }
}

impl WatchRequest {
    /// Prepares a watch of the changes to relationships of the given object
    /// types, or of all types if none is given, starting now.
    pub fn new(object_types: Vec<String>) -> (r: WatchRequest)
        ensures
            r@ == (WatchRequestView {
                optional_object_types: seq_view(object_types@),
                optional_start_cursor: None,
                optional_relationship_filters: Seq::empty(),
                optional_update_kinds: Seq::empty(),
            }),
    {
        let r = WatchRequest {
            request: proto::WatchRequest {
                optional_object_types: object_types,
                optional_start_cursor: None,
                optional_relationship_filters: Vec::new(),
                optional_update_kinds: Vec::new(),
            },
        };
        assert(r@.optional_relationship_filters =~= Seq::empty());
        r
    }

    /// Resumes watching after a token, such as the checkpoint of an earlier
    /// event.
    pub fn after_token(self, token: ZedToken) -> (r: WatchRequest)
        ensures
            r@ == (WatchRequestView { optional_start_cursor: Some(token@.to_proto()), ..self@ }),
    {
        let mut request = self.request;
        request.optional_start_cursor = Some(token.to_proto());
        WatchRequest { request }
    }

    /// Consumes the request and hands out the wire message to send.
    pub fn into_request(self) -> (p: proto::WatchRequest)
        ensures
            p@ == self@,
    {
        self.request
    }
}

} // verus!
