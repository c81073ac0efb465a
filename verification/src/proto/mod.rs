//! The wire messages exchanged with the authorization service, as plain
//! data. Every message has a view, its mathematical model, over which the
//! conversions to and from the domain types are specified.

pub mod base;
pub mod bulk;
pub mod permission;
pub mod schema;
pub mod tree;
pub mod value;
pub mod watch;

pub use base::{
    Any, Consistency, ContextualizedCaveat, Cursor, ObjectReference, PartialCaveatInfo,
    Precondition, RelationFilter, Relationship, RelationshipFilter, RelationshipUpdate,
    Requirement, Status, SubjectFilter, SubjectReference, Timestamp, ZedToken,
};
pub use bulk::{
    CheckBulkPermissionsPair, CheckBulkPermissionsRequest, CheckBulkPermissionsRequestItem,
    CheckBulkPermissionsResponse, CheckBulkPermissionsResponseItem,
    ExportBulkRelationshipsRequest, ExportBulkRelationshipsResponse,
    ImportBulkRelationshipsRequest, ImportBulkRelationshipsResponse, PairResponse,
};
pub use permission::{
    CheckPermissionRequest, CheckPermissionResponse, DeleteRelationshipsRequest,
    DeleteRelationshipsResponse, ExpandPermissionTreeRequest, ExpandPermissionTreeResponse,
    LookupResourcesRequest, LookupResourcesResponse, LookupSubjectsRequest,
    LookupSubjectsResponse, ReadRelationshipsRequest, ReadRelationshipsResponse, ResolvedSubject,
    WriteRelationshipsRequest, WriteRelationshipsResponse,
};
pub use schema::{ReadSchemaRequest, ReadSchemaResponse, WriteSchemaRequest, WriteSchemaResponse};
pub use tree::{AlgebraicSubjectSet, DirectSubjectSet, PermissionRelationshipTree, TreeType};
pub use value::{Field, Kind, ListValue, Struct, Value};
pub use watch::{WatchRequest, WatchResponse};
