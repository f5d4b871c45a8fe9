//! Reads one customer by id; a missing customer goes by the not-found policy.
use crate::actions::{read_schema, schema_outcome};
use crate::actions::{context_failure, context_values, read_record, record_outcome, request_to, start, base_of, Pending};
use crate::client::Method;
use crate::error::{AppError, ErrorCode, fails_with};
use crate::json::Json;
use crate::pipeline::{
    build_endpoint, extract_path_parameter, id_text, not_found_policy, placeholder, replaced,
    selected_policy, ActionContext, Reply,
};
use vstd::prelude::*;

verus! {

/// The path of a customer.
pub open spec fn customer_path(id: Seq<char>) -> Seq<char> {
    replaced("/customers/{customerId}"@, placeholder("customerId"@), id)
}

/// Builds the GET of the customer named by `customerId`, a string or an
/// integer; `Misconfigured` where there is none.
pub fn execute(context: &ActionContext) -> (r: Result<Pending, AppError>)
    ensures
        context_values(context.connection.serialized_data@, context.serialized_input@) is None
            ==> context_failure(context.connection.serialized_data@, context.serialized_input@, r),
        context_values(context.connection.serialized_data@, context.serialized_input@) matches Some(
            (c, v),
        ) ==> match id_text(v, "customerId"@) {
            None => fails_with(r, ErrorCode::Misconfigured),
            Some(id) => (r matches Ok(p) && request_to(
                c,
                Method::Get,
                base_of(c) + customer_path(id),
                None,
                p.request,
            ) && p.policy == selected_policy(v)),
        },
{
    let (client, input) = match start(context) {
        Ok(s) => s,
        Err(e) => {
            return Err(e);
        },
    };
    let policy = not_found_policy(&input);
    let id = match extract_path_parameter(&input, "customerId") {
        Ok(id) => id,
        Err(e) => {
            return Err(e);
        },
    };
    let endpoint = build_endpoint("/customers/{customerId}", "customerId", id.as_str());
    Ok(Pending { request: client.get(endpoint.as_str()), policy, lookup: true, sku: None })
}

/// Reads the reply: the customer without `password` and `_links`; a 404 goes
/// by the policy, with `{}` to continue with.
pub fn finish(pending: &Pending, reply: Reply) -> (r: Result<Json, AppError>)
    ensures
        record_outcome(reply, Some(pending.policy), true, r),
{
    read_record(reply, Some(pending.policy), true, "Customer not found")
}

/// The JSON Schema of this action's input.
pub const INPUT_SCHEMA: &'static str = r#"{"type":"object","properties":{"customerId":{"type":["string","integer"]},"on_not_found":{"type":"string","enum":["fail","continue","exit_level","exit_execution"]}},"required":["customerId"]}"#;

/// The JSON Schema of this action's output.
pub const OUTPUT_SCHEMA: &'static str = r#"{"type":"object"}"#;

/// The schema of the input, read from `INPUT_SCHEMA`.
pub fn input_schema(_context: &ActionContext) -> (r: Result<Json, AppError>)
    ensures
        schema_outcome(INPUT_SCHEMA@, r),
{
    read_schema(INPUT_SCHEMA)
}

/// The schema of the output, read from `OUTPUT_SCHEMA`.
pub fn output_schema(_context: &ActionContext) -> (r: Result<Json, AppError>)
    ensures
        schema_outcome(OUTPUT_SCHEMA@, r),
{
    read_schema(OUTPUT_SCHEMA)
}

} // verus!
