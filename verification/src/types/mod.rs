//! Domain types: validated values that wrap the wire messages.

pub mod consistency;
pub mod context;
pub mod filter;
pub mod keys;
pub mod permission;
pub mod reference;
pub mod relationship;
pub mod token;
pub mod watch;

pub use consistency::Consistency;
pub use context::{context_to_struct, ContextEntry, ContextMap, ContextValue};
pub use filter::{ReadRelationshipResult, RelationshipFilter, SubjectFilter};
pub use permission::{
    LookupResourceResult, LookupSubjectResult, PermissionResult, PermissionTree, PermissionTreeNode,
};
pub use reference::{ObjectReference, SubjectReference};
pub use relationship::{
    Caveat, Operation, Precondition, PreconditionOp, Relationship, RelationshipUpdate,
};
pub use token::ZedToken;
pub use watch::WatchEvent;
