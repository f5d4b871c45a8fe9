//! Creates a customer, or updates the one named by an integer `id`.
use crate::actions::{read_schema, schema_outcome};
use crate::actions::{context_failure, context_values, read_record, record_outcome, request_to, start, base_of, Pending};
use crate::actions::update_customer_by_id::body_without;
use crate::client::{post_url, Method};
use crate::codec::json_text;
use crate::error::{AppError, ErrorCode, fails_with};
use crate::json::{field, int_of, Json};
use crate::not_found::NotFoundPolicy;
use crate::pipeline::{request_body_without_empty_values, ActionContext, Reply};
use crate::query::{decimal, decimal_text};
use vstd::prelude::*;

verus! {

/// The request of a write: a PUT of `/customers/<id>` for an integer `id`,
/// else a POST of `/customers`.
pub open spec fn write_request(c: Json, v: Json, text: Seq<char>, q: crate::client::HttpRequest) -> bool {
    match int_of(field(v, "id"@)) {
        Some(i) => request_to(c, Method::Put, base_of(c) + "/customers/"@ + decimal(i as int), Some(text), q),
        None => request_to(c, Method::Post, post_url(base_of(c), "/customers"@), Some(text), q),
    }
}

/// Builds the write of a customer whose body is the input without `id` and
/// without empty values. Fails with `Other` where the input is not an
/// object.
pub fn execute(context: &ActionContext) -> (r: Result<Pending, AppError>)
    ensures
        context_values(context.connection.serialized_data@, context.serialized_input@) is None
            ==> context_failure(context.connection.serialized_data@, context.serialized_input@, r),
        context_values(context.connection.serialized_data@, context.serialized_input@) matches Some(
            (c, v),
        ) ==> {
            &&& !(v is Object) ==> fails_with(r, ErrorCode::Other)
            &&& v is Object ==> (r matches Ok(p) && exists|b: Json|
                body_without(v, seq!["id"@], b) && write_request(c, v, #[trigger] json_text(b), p.request))
        },
{
    let (client, input) = match start(context) {
        Ok(s) => s,
        Err(e) => {
            return Err(e);
        },
    };
    let id = input.get("id");
    let id = match id {
        Some(x) => x.as_i64(),
        None => None,
    };
    let ghost v = input;
    let excluded = ["id"];
    let excluded = excluded.as_slice();
    let body = match request_body_without_empty_values(input, excluded) {
        Ok(b) => b,
        Err(e) => {
            return Err(e);
        },
    };
    assert(body_without(v, seq!["id"@], body)) by {
        assert(crate::query::names_of(excluded@) =~= seq!["id"@]);
    }
    let request = match id {
        Some(i) => {
            let mut endpoint = String::from_str("/customers/");
            let d = decimal_text(i);
            endpoint.append(d.as_str());
            assert(client.base_url@ + endpoint@ =~= client.base_url@ + "/customers/"@ + decimal(
                i as int,
            ));
            client.put(endpoint.as_str(), &body)
        },
        None => client.post("/customers", &body),
    };
    match request {
        Ok(q) => Ok(Pending { request: q, policy: NotFoundPolicy::Fail, lookup: false, sku: None }),
        Err(e) => Err(e),
    }
}

/// Reads the reply: the customer without `password` and `_links`; any
/// status outside 2xx is `Other`.
pub fn finish(reply: Reply) -> (r: Result<Json, AppError>)
    ensures
        record_outcome(reply, None, true, r),
{
    read_record(reply, None, true, "Customer not found")
}

/// The JSON Schema of this action's input.
pub const INPUT_SCHEMA: &'static str = r#"{"type":"object","properties":{"id":{"type":"integer"},"email":{"type":"string"},"first_name":{"type":"string"},"last_name":{"type":"string"},"username":{"type":"string"},"password":{"type":"string"},"billing":{"type":"object"},"shipping":{"type":"object"},"meta_data":{"type":"array"}}}"#;

/// The JSON Schema of this action's output.
pub const OUTPUT_SCHEMA: &'static str = r#"{"type":"object"}"#;

/// The schema of the input, read from `INPUT_SCHEMA`.
pub fn input_schema(_context: &ActionContext) -> (r: Result<Json, AppError>)
    ensures
        schema_outcome(INPUT_SCHEMA@, r),
{
    read_schema(INPUT_SCHEMA)
}

/// The schema of the output, read from `OUTPUT_SCHEMA`.
pub fn output_schema(_context: &ActionContext) -> (r: Result<Json, AppError>)
    ensures
        schema_outcome(OUTPUT_SCHEMA@, r),
{
    read_schema(OUTPUT_SCHEMA)
}

} // verus!
