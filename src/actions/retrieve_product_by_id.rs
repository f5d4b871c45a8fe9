//! Reads one product by id.
use crate::actions::{read_schema, schema_outcome};
use crate::actions::{context_failure, context_values, read_record, record_outcome, request_to, start, base_of, Pending};
use crate::client::Method;
use crate::error::{AppError, ErrorCode, fails_with};
use crate::json::Json;
use crate::not_found::NotFoundPolicy;
use crate::pipeline::{
    build_endpoint, extract_path_parameter, id_text, placeholder, replaced, ActionContext, Reply,
};
use vstd::prelude::*;

verus! {

/// The path of a product.
pub open spec fn product_path(id: Seq<char>) -> Seq<char> {
    replaced("/products/{productId}"@, placeholder("productId"@), id)
}

/// Builds the GET of the product named by `productId`, a string or an
/// integer; `Misconfigured` where there is none.
pub fn execute(context: &ActionContext) -> (r: Result<Pending, AppError>)
    ensures
        context_values(context.connection.serialized_data@, context.serialized_input@) is None
            ==> context_failure(context.connection.serialized_data@, context.serialized_input@, r),
        context_values(context.connection.serialized_data@, context.serialized_input@) matches Some(
            (c, v),
        ) ==> match id_text(v, "productId"@) {
            None => fails_with(r, ErrorCode::Misconfigured),
            Some(id) => (r matches Ok(p) && request_to(
                c,
                Method::Get,
                base_of(c) + product_path(id),
                None,
                p.request,
            )),
        },
{
    let (client, input) = match start(context) {
        Ok(s) => s,
        Err(e) => {
            return Err(e);
        },
    };
    let id = match extract_path_parameter(&input, "productId") {
        Ok(id) => id,
        Err(e) => {
            return Err(e);
        },
    };
    let endpoint = build_endpoint("/products/{productId}", "productId", id.as_str());
    Ok(
        Pending {
            request: client.get(endpoint.as_str()),
            policy: NotFoundPolicy::Fail,
            lookup: false,
            sku: None,
        },
    )
}

/// Reads the reply: the product as it came; any status outside 2xx, 404
/// included, is `Other`.
pub fn finish(reply: Reply) -> (r: Result<Json, AppError>)
    ensures
        record_outcome(reply, None, false, r),
{
    read_record(reply, None, false, "Product not found")
}

/// The JSON Schema of this action's input.
pub const INPUT_SCHEMA: &'static str = r#"{"type":"object","properties":{"productId":{"type":["string","integer"]}},"required":["productId"]}"#;

/// The JSON Schema of this action's output.
pub const OUTPUT_SCHEMA: &'static str = r#"{"type":"object"}"#;

/// The schema of the input, read from `INPUT_SCHEMA`.
pub fn input_schema(_context: &ActionContext) -> (r: Result<Json, AppError>)
    ensures
        schema_outcome(INPUT_SCHEMA@, r),
{
    read_schema(INPUT_SCHEMA)
}

/// The schema of the output, read from `OUTPUT_SCHEMA`.
pub fn output_schema(_context: &ActionContext) -> (r: Result<Json, AppError>)
    ensures
        schema_outcome(OUTPUT_SCHEMA@, r),
{
    read_schema(OUTPUT_SCHEMA)
}

} // verus!
