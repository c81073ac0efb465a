//! Messages of the schema service.

use super::base::{ZedToken, ZedTokenView};
use crate::model::option_view;
use vstd::prelude::*;

verus! {

/// Asks for the current schema.
#[derive(Debug, Clone, PartialEq, Default)]
pub struct ReadSchemaRequest {}

/// Mathematical model of [`ReadSchemaRequest`].
pub struct ReadSchemaRequestView {}

impl View for ReadSchemaRequest {
    type V = ReadSchemaRequestView;

    open spec fn view(&self) -> ReadSchemaRequestView {
        ReadSchemaRequestView {}
    }
}

/// The current schema.
#[derive(Debug, Clone, PartialEq, Default)]
pub struct ReadSchemaResponse {
    /// The text of the schema.
    pub schema_text: String,
    /// The revision at which the schema was read.
    pub read_at: Option<ZedToken>,
}

/// Mathematical model of [`ReadSchemaResponse`].
pub struct ReadSchemaResponseView {
    pub schema_text: Seq<char>,
    pub read_at: Option<ZedTokenView>,
}

impl View for ReadSchemaResponse {
    type V = ReadSchemaResponseView;

    open spec fn view(&self) -> ReadSchemaResponseView {
        ReadSchemaResponseView {
            schema_text: self.schema_text@,
            read_at: option_view(self.read_at),
        }
    }
}

/// Replaces the schema.
#[derive(Debug, Clone, PartialEq, Default)]
pub struct WriteSchemaRequest {
    /// The text of the new schema.
    pub schema: String,
}

/// Mathematical model of [`WriteSchemaRequest`].
pub struct WriteSchemaRequestView {
    pub schema: Seq<char>,
}

impl View for WriteSchemaRequest {
    type V = WriteSchemaRequestView;

    open spec fn view(&self) -> WriteSchemaRequestView {
        WriteSchemaRequestView {
            schema: self.schema@,
        }
    }
}

/// Answer to a schema write.
#[derive(Debug, Clone, PartialEq, Default)]
pub struct WriteSchemaResponse {
    /// The revision at which the schema was written.
    pub written_at: Option<ZedToken>,
}

/// Mathematical model of [`WriteSchemaResponse`].
pub struct WriteSchemaResponseView {
    pub written_at: Option<ZedTokenView>,
}

impl View for WriteSchemaResponse {
    type V = WriteSchemaResponseView;

    open spec fn view(&self) -> WriteSchemaResponseView {
        WriteSchemaResponseView {
            written_at: option_view(self.written_at),
        }
    }
}

} // verus!
