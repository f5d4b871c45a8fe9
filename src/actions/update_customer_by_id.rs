//! Updates one customer by id with the non-empty fields of the input.
use crate::actions::{read_schema, schema_outcome};
use crate::actions::{context_failure, context_values, read_record, record_outcome, request_to, start, base_of, Pending};
use crate::actions::retrieve_customer_by_id::customer_path;
use crate::client::Method;
use crate::codec::json_text;
use crate::error::{AppError, ErrorCode, fails_with};
use crate::json::Json;
use crate::pipeline::{
    build_endpoint, extract_path_parameter, id_text, kept_members, not_found_policy,
    request_body_without_empty_values, selected_policy, ActionContext, Reply,
};
use vstd::prelude::*;

verus! {

/// The body of a write: the input object without the listed fields and
/// without empty values.
pub open spec fn body_without(v: Json, names: Seq<Seq<char>>, b: Json) -> bool {
    match (v, b) {
        (Json::Object(m), Json::Object(k)) => k@ == kept_members(m@, names, true),
        _ => false,
    }
}

/// Builds the PUT of the customer named by `customerId`, a string or an
/// integer (`Misconfigured` where there is none), whose body is the input
/// without `customerId`, `on_not_found` and empty values.
pub fn execute(context: &ActionContext) -> (r: Result<Pending, AppError>)
    ensures
        context_values(context.connection.serialized_data@, context.serialized_input@) is None
            ==> context_failure(context.connection.serialized_data@, context.serialized_input@, r),
        context_values(context.connection.serialized_data@, context.serialized_input@) matches Some(
            (c, v),
        ) ==> match id_text(v, "customerId"@) {
            None => fails_with(r, ErrorCode::Misconfigured),
            Some(id) => (r matches Ok(p) && p.policy == selected_policy(v) && exists|b: Json|
                body_without(v, seq!["customerId"@, "on_not_found"@], b) && request_to(
                    c,
                    Method::Put,
                    base_of(c) + customer_path(id),
                    Some(#[trigger] json_text(b)),
                    p.request,
                )),
        },
{
    let (client, input) = match start(context) {
        Ok(s) => s,
        Err(e) => {
            return Err(e);
        },
    };
    let policy = not_found_policy(&input);
    let id = match extract_path_parameter(&input, "customerId") {
        Ok(id) => id,
        Err(e) => {
            return Err(e);
        },
    };
    let endpoint = build_endpoint("/customers/{customerId}", "customerId", id.as_str());
    let ghost v = input;
    let excluded = ["customerId", "on_not_found"];
    let excluded = excluded.as_slice();
    let body = match request_body_without_empty_values(input, excluded) {
        Ok(b) => b,
        Err(e) => {
            return Err(e);
        },
    };
    let request = match client.put(endpoint.as_str(), &body) {
        Ok(q) => q,
        Err(e) => {
            return Err(e);
        },
    };
    assert(body_without(v, seq!["customerId"@, "on_not_found"@], body)) by {
        assert(crate::query::names_of(excluded@) =~= seq!["customerId"@, "on_not_found"@]);
    }
    Ok(Pending { request, policy, lookup: true, sku: None })
}

/// Reads the reply: the updated customer without `password` and `_links`; a
/// 404 goes by the policy, with `{}` to continue with.
pub fn finish(pending: &Pending, reply: Reply) -> (r: Result<Json, AppError>)
    ensures
        record_outcome(reply, Some(pending.policy), true, r),
{
    read_record(reply, Some(pending.policy), true, "Customer not found")
}

/// The JSON Schema of this action's input.
pub const INPUT_SCHEMA: &'static str = r#"{"type":"object","properties":{"customerId":{"type":["string","integer"]},"on_not_found":{"type":"string","enum":["fail","continue","exit_level","exit_execution"]},"email":{"type":"string"},"first_name":{"type":"string"},"last_name":{"type":"string"},"username":{"type":"string"},"password":{"type":"string"},"billing":{"type":"object"},"shipping":{"type":"object"},"meta_data":{"type":"array"}},"required":["customerId"]}"#;

/// The JSON Schema of this action's output.
pub const OUTPUT_SCHEMA: &'static str = r#"{"type":"object"}"#;

/// The schema of the input, read from `INPUT_SCHEMA`.
pub fn input_schema(_context: &ActionContext) -> (r: Result<Json, AppError>)
    ensures
        schema_outcome(INPUT_SCHEMA@, r),
{
    read_schema(INPUT_SCHEMA)
}

/// The schema of the output, read from `OUTPUT_SCHEMA`.
pub fn output_schema(_context: &ActionContext) -> (r: Result<Json, AppError>)
    ensures
        schema_outcome(OUTPUT_SCHEMA@, r),
{
    read_schema(OUTPUT_SCHEMA)
}

} // verus!
