//! Requests and responses of the client, shaped and decoded without any
//! network activity: a request is configured step by step and handed out
//! for sending exactly once, and what comes back is decoded here.

pub mod builder;
pub mod experimental;
pub mod permissions;
pub mod schema;
pub mod stream;
pub mod watch;

pub use builder::{ClientBuilder, ConnectionSettings};
pub use experimental::{
    BulkCheckItem, BulkCheckPermissionsRequest, BulkExportRelationshipsRequest, CheckResult,
};
pub use permissions::{
    CheckPermissionRequest, DeleteRelationshipsRequest, ExpandPermissionTreeRequest,
    LookupResourcesRequest, LookupSubjectsRequest, ReadRelationshipsRequest,
    WriteRelationshipsRequest,
};
pub use stream::{StreamEvent, StreamStep};
pub use watch::WatchRequest;
