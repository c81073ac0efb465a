//! Requests of the schema service.

use crate::error::{result_view, Error, ErrorView};
use crate::proto;
use crate::proto::schema::WriteSchemaRequestView;
use crate::types::permission::{required_token, token_from_proto};
use crate::types::token::{ZedToken, ZedTokenView};
use vstd::prelude::*;

verus! {

/// The request for the current schema; it carries nothing.
pub fn read_schema_request() -> (p: proto::ReadSchemaRequest)
    ensures
        p@ == (proto::schema::ReadSchemaRequestView {  }),
{
    proto::ReadSchemaRequest {  }
}

/// What decoding the answer to a schema read yields: the text of the schema
/// and the revision at which it was read, which is required.
pub open spec fn decode_schema(response: proto::schema::ReadSchemaResponseView) -> Result<
    (Seq<char>, ZedTokenView),
    ErrorView,
> {
    match required_token(response.read_at, "missing read_at token"@) {
        Err(e) => Err(e),
        Ok(token) => Ok((response.schema_text, token)),
    }
}

/// Decodes the answer to a schema read.
pub fn decode_read_schema(response: proto::ReadSchemaResponse) -> (r: Result<
    (String, ZedToken),
    Error,
>)
    ensures
        match r {
            Ok((text, token)) => decode_schema(response@) == Ok::<
                (Seq<char>, ZedTokenView),
                ErrorView,
            >((text@, token@)),
            Err(e) => decode_schema(response@) == Err::<(Seq<char>, ZedTokenView), ErrorView>(e@),
        },
{
    match token_from_proto(response.read_at, "missing read_at token") {
        Err(e) => Err(e),
        Ok(token) => Ok((response.schema_text, token)),
    }
}

/// What preparing a schema write yields: the empty schema is rejected
/// before anything is sent.
pub open spec fn validated_schema(schema: Seq<char>) -> Result<WriteSchemaRequestView, ErrorView> {
    if schema.len() == 0 {
        Err(ErrorView::InvalidArgument("schema must not be empty"@))
    } else {
        Ok(WriteSchemaRequestView { schema })
    }
}

/// The request that replaces the schema by `schema`, or the failure that
/// keeps it from being sent.
pub fn write_schema_request(schema: &str) -> (r: Result<proto::WriteSchemaRequest, Error>)
    ensures
        match r {
            Ok(p) => validated_schema(schema@) == Ok::<WriteSchemaRequestView, ErrorView>(p@),
            Err(e) => validated_schema(schema@) == Err::<WriteSchemaRequestView, ErrorView>(e@),
        },
{
    if schema.is_empty() {
        Err(Error::invalid_argument("schema must not be empty"))
    } else {
        Ok(proto::WriteSchemaRequest { schema: schema.to_owned() })
    }
}

/// Decodes the answer to a schema write: the revision at which the schema
/// was written.
pub fn decode_write_schema(response: proto::WriteSchemaResponse) -> (r: Result<ZedToken, Error>)
    ensures
        result_view(r) == required_token(response@.written_at, "missing written_at token"@),
{
    token_from_proto(response.written_at, "missing written_at token")
}

} // verus!
