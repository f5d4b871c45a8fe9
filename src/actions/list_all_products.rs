//! Lists products with the filters of the input; with a string `sku`, reads
//! the one product whose SKU is exactly that.
use crate::actions::{read_schema, schema_outcome};
use crate::actions::{
    base_of, context_failure, context_values, first_with_sku, is_empty_object, policy_result,
    request_to, start, status_error, status_message, take_first_with_sku, empty_object, Pending,
};
use crate::client::{str_of_field, Method};
use crate::codec::parsed_json;
use crate::error::{AppError, ErrorCode, app_error, fails_with};
use crate::json::{field, Json};
use crate::not_found::handle_not_found;
use crate::pipeline::{is_success, not_found_policy, parse_response, selected_policy, ActionContext, Reply};
use crate::query::{build_query_parameters, names_of, query_string};
use vstd::prelude::*;

verus! {

/// The fields of the input that become query parameters, in this order.
pub open spec fn list_params() -> Seq<Seq<char>> {
    seq![
        "context"@, "page"@, "per_page"@, "search"@, "after"@, "before"@, "modified_after"@,
        "modified_before"@, "dates_are_gmt"@, "exclude"@, "include"@, "offset"@, "order"@,
        "orderby"@, "parent"@, "parent_exclude"@, "slug"@, "status"@, "include_status"@,
        "exclude_status"@, "type"@, "include_types"@, "exclude_types"@, "sku"@, "featured"@,
        "category"@, "tag"@, "shipping_class"@, "attribute"@, "attribute_term"@, "tax_class"@,
        "on_sale"@, "min_price"@, "max_price"@, "stock_status"@, "virtual"@, "downloadable"@,
    ]
}

/// `/products`, with `?` and the query string where that is not empty.
pub open spec fn list_path(v: Json) -> Seq<char> {
    let q = query_string(v, list_params());
    if q.len() == 0 {
        "/products"@
    } else {
        "/products"@ + "?"@ + q
    }
}

/// The query string of the input.
pub fn build_query(input: &Json) -> (r: String)
    ensures
        r@ == query_string(*input, list_params()),
{
    let params = [
        "context", "page", "per_page", "search", "after", "before", "modified_after",
        "modified_before", "dates_are_gmt", "exclude", "include", "offset", "order", "orderby",
        "parent", "parent_exclude", "slug", "status", "include_status", "exclude_status", "type",
        "include_types", "exclude_types", "sku", "featured", "category", "tag", "shipping_class",
        "attribute", "attribute_term", "tax_class", "on_sale", "min_price", "max_price",
        "stock_status", "virtual", "downloadable",
    ];
    let params = params.as_slice();
    assert(names_of(params@) =~= list_params());
    build_query_parameters(input, params)
}

/// Builds the GET of the product list. A 404 counts as "not found" where the
/// input has a `sku` field.
pub fn execute(context: &ActionContext) -> (r: Result<Pending, AppError>)
    ensures
        context_values(context.connection.serialized_data@, context.serialized_input@) is None
            ==> context_failure(context.connection.serialized_data@, context.serialized_input@, r),
        context_values(context.connection.serialized_data@, context.serialized_input@) matches Some(
            (c, v),
        ) ==> (r matches Ok(p) && request_to(c, Method::Get, base_of(c) + list_path(v), None, p.request)
            && p.policy == selected_policy(v) && p.lookup == field(v, "sku"@) is Some && match p.sku {
            Some(t) => str_of_field(v, "sku"@) == Some(t@),
            None => str_of_field(v, "sku"@) is None,
        }),
{
    let (client, input) = match start(context) {
        Ok(s) => s,
        Err(e) => {
            return Err(e);
        },
    };
    let policy = not_found_policy(&input);
    let query = build_query(&input);
    let mut endpoint = String::from_str("/products");
    if !query.as_str().is_empty() {
        endpoint.append("?");
        endpoint.append(query.as_str());
        assert(client.base_url@ + endpoint@ =~= client.base_url@ + ("/products"@ + "?"@ + query@));
    }
    let lookup = input.get("sku").is_some();
    let sku = match input.get("sku") {
        Some(Json::Str(s)) => Some(String::from_str(s.as_str())),
        _ => None,
    };
    Ok(Pending { request: client.get(endpoint.as_str()), policy, lookup, sku })
}

/// What reading the reply gives. A transport failure is `Other`; outside 2xx
/// a 404 goes by the policy where the input had a `sku` field (with `{}` to
/// continue with), and anything else is `Other`. A body that is not JSON is
/// `MalformedResponse`. Without a string SKU the value is the result. With
/// one, the body must be an array (else `MalformedResponse`), and the result
/// is its first record with exactly that SKU; where there is none, the
/// policy decides.
pub open spec fn list_outcome(p: Pending, reply: Reply, r: Result<Json, AppError>) -> bool {
    match reply {
        Reply::Failed => fails_with(r, ErrorCode::Other),
        Reply::Received { status, body } => if !is_success(status) {
            if status == 404 && p.lookup {
                policy_result(p.policy, r) && (r matches Ok(x) ==> is_empty_object(x))
            } else {
                r matches Err(e) && e.code == ErrorCode::Other && e.message@ == status_message(
                    status,
                    body@,
                )
            }
        } else {
            match parsed_json(body@) {
                None => fails_with(r, ErrorCode::MalformedResponse),
                Some(v) => match p.sku {
                    None => r == Ok::<Json, AppError>(v),
                    Some(t) => match v {
                        Json::Array(items) => match first_with_sku(items@, t@) {
                            Some(x) => r == Ok::<Json, AppError>(x),
                            None => policy_result(p.policy, r) && (r matches Ok(x) ==> is_empty_object(
                                x,
                            )),
                        },
                        _ => fails_with(r, ErrorCode::MalformedResponse),
                    },
                },
            }
        },
    }
}

/// Reads the reply.
pub fn finish(pending: &Pending, reply: Reply) -> (r: Result<Json, AppError>)
    ensures
        list_outcome(*pending, reply, r),
{
    let (status, body) = match reply {
        Reply::Failed => {
            return Err(app_error(ErrorCode::Other, "Request failed"));
        },
        Reply::Received { status, body } => (status, body),
    };
    if status < 200 || status >= 300 {
        if status == 404 && pending.lookup {
            return handle_not_found(
                pending.policy,
                empty_object(),
                "No product found matching the provided SKU",
            );
        }
        return Err(status_error(status, body.as_str()));
    }
    let v = match parse_response(body.as_str()) {
        Ok(v) => v,
        Err(e) => {
            return Err(e);
        },
    };
    match &pending.sku {
        None => Ok(v),
        Some(t) => match v {
            Json::Array(items) => match take_first_with_sku(items, t.as_str()) {
                Some(x) => Ok(x),
                None => handle_not_found(
                    pending.policy,
                    empty_object(),
                    "No product found matching the provided SKU",
                ),
            },
            _ => Err(
                app_error(ErrorCode::MalformedResponse, "Expected an array of products"),
            ),
        },
    }
}

/// The JSON Schema of this action's input.
pub const INPUT_SCHEMA: &'static str = r#"{"type":"object","properties":{"context":{"type":"string"},"page":{"type":"integer"},"per_page":{"type":"integer"},"search":{"type":"string"},"after":{"type":"string"},"before":{"type":"string"},"modified_after":{"type":"string"},"modified_before":{"type":"string"},"dates_are_gmt":{"type":"boolean"},"exclude":{"type":"array","items":{"type":"string"}},"include":{"type":"array","items":{"type":"string"}},"offset":{"type":"integer"},"order":{"type":"string"},"orderby":{"type":"string"},"parent":{"type":"integer"},"parent_exclude":{"type":"array","items":{"type":"string"}},"slug":{"type":"string"},"status":{"type":"string"},"include_status":{"type":"array","items":{"type":"string"}},"exclude_status":{"type":"array","items":{"type":"string"}},"type":{"type":"string"},"include_types":{"type":"array","items":{"type":"string"}},"exclude_types":{"type":"array","items":{"type":"string"}},"sku":{"type":"string"},"featured":{"type":"boolean"},"category":{"type":"string"},"tag":{"type":"string"},"shipping_class":{"type":"string"},"attribute":{"type":"string"},"attribute_term":{"type":"string"},"tax_class":{"type":"string"},"on_sale":{"type":"boolean"},"min_price":{"type":"string"},"max_price":{"type":"string"},"stock_status":{"type":"string"},"virtual":{"type":"boolean"},"downloadable":{"type":"boolean"},"on_not_found":{"type":"string","enum":["fail","continue","exit_level","exit_execution"]}}}"#;

/// The JSON Schema of this action's output.
pub const OUTPUT_SCHEMA: &'static str = r#"{"type":["object","array"]}"#;

/// The schema of the input, read from `INPUT_SCHEMA`.
pub fn input_schema(_context: &ActionContext) -> (r: Result<Json, AppError>)
    ensures
        schema_outcome(INPUT_SCHEMA@, r),
{
    read_schema(INPUT_SCHEMA)
}

/// The schema of the output, read from `OUTPUT_SCHEMA`.
pub fn output_schema(_context: &ActionContext) -> (r: Result<Json, AppError>)
    ensures
        schema_outcome(OUTPUT_SCHEMA@, r),
{
    read_schema(OUTPUT_SCHEMA)
}

} // verus!
