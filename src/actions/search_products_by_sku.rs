//! Searches products in one page chosen by the input; with a string `sku`,
//! keeps the products whose SKU is exactly that.
use crate::actions::{read_schema, schema_outcome};
use crate::actions::{
    base_of, context_failure, context_values, is_items, items_object, keep_with_sku,
    policy_result, request_to, start, status_error, status_message, with_sku, Pending,
};
use crate::actions::search_products::{build_query, query_tail, search_params};
use crate::client::{str_of_field, Method};
use crate::codec::parsed_json;
use crate::error::{AppError, ErrorCode, app_error, fails_with};
use crate::json::{field, int_of, Json};
use crate::not_found::handle_not_found;
use crate::pipeline::{is_success, not_found_policy, parse_response, selected_policy, ActionContext, Reply};
use crate::query::{decimal, decimal_text, query_string};
use vstd::prelude::*;

verus! {

/// An integer field of the input, or a default.
pub open spec fn int_or(v: Json, name: Seq<char>, default: int) -> int {
    match int_of(field(v, name)) {
        Some(i) => i as int,
        None => default,
    }
}

/// The path of the search: `/products?page=<page>&per_page=<per_page>`,
/// with page 1 and 100 per page unless the input gives integers, then the
/// query string of the other filters.
pub open spec fn sku_search_path(v: Json) -> Seq<char> {
    "/products?page="@ + decimal(int_or(v, "page"@, 1)) + "&per_page="@ + decimal(
        int_or(v, "per_page"@, 100),
    ) + query_tail(query_string(v, search_params()))
}

/// Builds the GET of the search. A 404 counts as "not found" where the input
/// has a string `sku`.
pub fn execute(context: &ActionContext) -> (r: Result<Pending, AppError>)
    ensures
        context_values(context.connection.serialized_data@, context.serialized_input@) is None
            ==> context_failure(context.connection.serialized_data@, context.serialized_input@, r),
        context_values(context.connection.serialized_data@, context.serialized_input@) matches Some(
            (c, v),
        ) ==> (r matches Ok(p) && request_to(
            c,
            Method::Get,
            base_of(c) + sku_search_path(v),
            None,
            p.request,
        ) && p.policy == selected_policy(v) && p.lookup == str_of_field(v, "sku"@) is Some
            && match p.sku {
            Some(t) => str_of_field(v, "sku"@) == Some(t@),
            None => str_of_field(v, "sku"@) is None,
        }),
{
    let (client, input) = match start(context) {
        Ok(s) => s,
        Err(e) => {
            return Err(e);
        },
    };
    let policy = not_found_policy(&input);
    let page: i64 = match input.get("page") {
        Some(x) => match x.as_i64() {
            Some(i) => i,
            None => 1,
        },
        None => 1,
    };
    let per_page: i64 = match input.get("per_page") {
        Some(x) => match x.as_i64() {
            Some(i) => i,
            None => 100,
        },
        None => 100,
    };
    let query = build_query(&input);
    let mut path = String::from_str("/products?page=");
    let a = decimal_text(page);
    path.append(a.as_str());
    path.append("&per_page=");
    let b = decimal_text(per_page);
    path.append(b.as_str());
    let ghost head = path@;
    assert(head =~= "/products?page="@ + decimal(page as int) + "&per_page="@ + decimal(
        per_page as int,
    ));
    if !query.as_str().is_empty() {
        path.append("&");
        path.append(query.as_str());
        proof {
            reveal_strlit("&");
            assert("&"@ =~= seq!['&']);
            assert(path@ =~= head + query_tail(query@));
        }
    } else {
        assert(path@ =~= head + query_tail(query@));
    }
    assert(client.base_url@ + path@ =~= client.base_url@ + sku_search_path(input));
    let sku = match input.get("sku") {
        Some(Json::Str(s)) => Some(String::from_str(s.as_str())),
        _ => None,
    };
    let lookup = sku.is_some();
    Ok(Pending { request: client.get(path.as_str()), policy, lookup, sku })
}

/// The records of a search body: the items of an array, none for any other
/// value.
pub open spec fn records_of(v: Json) -> Seq<Json> {
    match v {
        Json::Array(items) => items@,
        _ => seq![],
    }
}

/// What reading the reply gives. A transport failure is `Other`; outside 2xx
/// a 404 goes by the policy where the input had a string SKU (with
/// `{"items": []}` to continue with), and anything else is `Other`. A body
/// that is not JSON is `MalformedResponse`. Otherwise the result is
/// `{"items": records}`, where the records are those of the body, and with
/// a SKU only those whose SKU is exactly that; no match at all goes by the
/// policy.
pub open spec fn sku_search_outcome(p: Pending, reply: Reply, r: Result<Json, AppError>) -> bool {
    match reply {
        Reply::Failed => fails_with(r, ErrorCode::Other),
        Reply::Received { status, body } => if !is_success(status) {
            if status == 404 && p.lookup {
                policy_result(p.policy, r) && (r matches Ok(x) ==> is_items(x, seq![]))
            } else {
                r matches Err(e) && e.code == ErrorCode::Other && e.message@ == status_message(
                    status,
                    body@,
                )
            }
        } else {
            match parsed_json(body@) {
                None => fails_with(r, ErrorCode::MalformedResponse),
                Some(v) => match p.sku {
                    None => (r matches Ok(x) && is_items(x, records_of(v))),
                    Some(t) => {
                        let kept = with_sku(records_of(v), t@);
                        if kept.len() == 0 {
                            policy_result(p.policy, r) && (r matches Ok(x) ==> is_items(x, seq![]))
                        } else {
                            r matches Ok(x) && is_items(x, kept)
                        }
                    },
                },
            }
        },
    }
}

/// Reads the reply.
pub fn finish(pending: &Pending, reply: Reply) -> (r: Result<Json, AppError>)
    ensures
        sku_search_outcome(*pending, reply, r),
{
    let (status, body) = match reply {
        Reply::Failed => {
            return Err(app_error(ErrorCode::Other, "Request failed"));
        },
        Reply::Received { status, body } => (status, body),
    };
    if status < 200 || status >= 300 {
        if status == 404 && pending.lookup {
            return handle_not_found(
                pending.policy,
                items_object(Vec::new()),
                "No product found matching the provided SKU",
            );
        }
        return Err(status_error(status, body.as_str()));
    }
    let v = match parse_response(body.as_str()) {
        Ok(v) => v,
        Err(e) => {
            return Err(e);
        },
    };
    let records = match v {
        Json::Array(items) => items,
        _ => Vec::new(),
    };
    match &pending.sku {
        None => Ok(items_object(records)),
        Some(t) => {
            let kept = keep_with_sku(records, t.as_str());
            if kept.len() == 0 {
                handle_not_found(
                    pending.policy,
                    items_object(Vec::new()),
                    "No product found matching the provided SKU",
                )
            } else {
                Ok(items_object(kept))
            }
        },
    }
}

/// The JSON Schema of this action's input.
pub const INPUT_SCHEMA: &'static str = r#"{"type":"object","properties":{"page":{"type":"integer"},"per_page":{"type":"integer"},"context":{"type":"string"},"search":{"type":"string"},"after":{"type":"string"},"before":{"type":"string"},"exclude":{"type":"array","items":{"type":"string"}},"include":{"type":"array","items":{"type":"string"}},"offset":{"type":"integer"},"order":{"type":"string"},"orderby":{"type":"string"},"parent":{"type":"integer"},"parent_exclude":{"type":"array","items":{"type":"string"}},"slug":{"type":"string"},"status":{"type":"string"},"type":{"type":"string"},"sku":{"type":"string"},"featured":{"type":"boolean"},"category":{"type":"string"},"tag":{"type":"string"},"shipping_class":{"type":"string"},"attribute":{"type":"string"},"attribute_term":{"type":"string"},"tax_class":{"type":"string"},"on_sale":{"type":"boolean"},"min_price":{"type":"string"},"max_price":{"type":"string"},"stock_status":{"type":"string"},"on_not_found":{"type":"string","enum":["fail","continue","exit_level","exit_execution"]}}}"#;

/// The JSON Schema of this action's output.
pub const OUTPUT_SCHEMA: &'static str = r#"{"type":"object","properties":{"items":{"type":"array","items":{"type":"object"}}},"required":["items"]}"#;

/// The schema of the input, read from `INPUT_SCHEMA`.
pub fn input_schema(_context: &ActionContext) -> (r: Result<Json, AppError>)
    ensures
        schema_outcome(INPUT_SCHEMA@, r),
{
    read_schema(INPUT_SCHEMA)
}

/// The schema of the output, read from `OUTPUT_SCHEMA`.
pub fn output_schema(_context: &ActionContext) -> (r: Result<Json, AppError>)
    ensures
        schema_outcome(OUTPUT_SCHEMA@, r),
{
    read_schema(OUTPUT_SCHEMA)
}

} // verus!
