//! A strongly-typed access layer over a relationship-based authorization
//! service with a check / write / read / lookup / watch protocol.
//!
//! The library shapes and validates the data that crosses the boundary to
//! the service; it sends nothing itself. Every function is verified against
//! its contract, and the contracts are stated over the mathematical models
//! (the *views*) of the types.
//!
//! - [`types`] holds the validated values: object and subject references,
//!   consistency tokens, filters, relationships, the caveat context, the
//!   three-state permission result and the permission tree. A value with an
//!   invariant can only be made by a constructor that checks it or by
//!   decoding a wire message, which checks it anew.
//! - [`proto`] holds the wire messages as plain data. Each domain type has a
//!   total conversion to its wire message and, where the service sends it, a
//!   strict conversion back: a missing field, an unknown code or a wrong
//!   number of children is an [`Error::Serialization`], never a default.
//! - [`client`] holds the requests. A request is created with its required
//!   parameters, refined by chainable calls and consumed by `into_request`,
//!   which hands out the wire message to send; the answer is decoded by the
//!   request's `decode`, or, for a streamed answer, step by step by
//!   [`client::stream`].
//! - [`error`] holds the error taxonomy and the status codes.
//!
//! A few facts are taken on trust from the crates the library calls, each
//! stated at the function that makes the call: how the standard library
//! prints an integer ([`model`]); which status code `tonic` reads an integer
//! as ([`error`]); and, in [`client::builder`], which text `tonic` takes as
//! a metadata value, that what `http` finds in a URI depends on the text of
//! the URI alone, and that `tonic` takes an endpoint exactly if `http`
//! parses it.

pub mod client;
pub mod error;
pub mod model;
pub mod proto;
pub mod types;

pub use client::{BulkCheckItem, CheckResult, ClientBuilder, ConnectionSettings};
pub use error::{Code, Error, SpiceDbErrorDetails};
pub use types::{
    Caveat, Consistency, ContextEntry, ContextMap, ContextValue, LookupResourceResult,
    LookupSubjectResult, ObjectReference, Operation, PermissionResult, PermissionTree,
    PermissionTreeNode, Precondition, PreconditionOp, ReadRelationshipResult, Relationship,
    RelationshipFilter, RelationshipUpdate, SubjectFilter, SubjectReference, WatchEvent, ZedToken,
};
