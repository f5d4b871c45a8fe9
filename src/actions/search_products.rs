//! Searches products, fetching page after page until the last one; an empty
//! result of a SKU or text search goes by the not-found policy.
use crate::actions::{read_schema, schema_outcome};
use crate::actions::{
    context_failure, context_values, is_items, items_object, policy_result, start, status_error,
    status_message,
};
use crate::client::{client_of, request_of, ApiClient, HttpRequest, Method};
use crate::error::{AppError, ErrorCode, app_error, fails_with};
use crate::json::{field, Json};
use crate::not_found::{handle_not_found, NotFoundPolicy};
use crate::paging::{page_records, PageScan, MAX_PAGES, PAGE_SIZE};
use crate::pipeline::{not_found_policy, parse_page, is_success, selected_policy, ActionContext, Reply};
use crate::query::{build_query_parameters, decimal, decimal_text, names_of, query_string};
use vstd::prelude::*;

verus! {

/// The fields of the input that become query parameters, in this order.
/// `page` and `per_page` are not among them: the search sets them itself.
pub open spec fn search_params() -> Seq<Seq<char>> {
    seq![
        "context"@, "search"@, "after"@, "before"@, "exclude"@, "include"@, "offset"@, "order"@,
        "orderby"@, "parent"@, "parent_exclude"@, "slug"@, "status"@, "type"@, "sku"@,
        "featured"@, "category"@, "tag"@, "shipping_class"@, "attribute"@, "attribute_term"@,
        "tax_class"@, "on_sale"@, "min_price"@, "max_price"@, "stock_status"@,
    ]
}

/// The query string of the input over `search_params`.
pub fn build_query(input: &Json) -> (r: String)
    ensures
        r@ == query_string(*input, search_params()),
{
    let params = [
        "context", "search", "after", "before", "exclude", "include", "offset", "order",
        "orderby", "parent", "parent_exclude", "slug", "status", "type", "sku", "featured",
        "category", "tag", "shipping_class", "attribute", "attribute_term", "tax_class",
        "on_sale", "min_price", "max_price", "stock_status",
    ];
    let params = params.as_slice();
    assert(names_of(params@) =~= search_params());
    build_query_parameters(input, params)
}

/// `&` and the query string, where that is not empty.
pub open spec fn query_tail(q: Seq<char>) -> Seq<char> {
    if q.len() == 0 {
        seq![]
    } else {
        seq!['&'] + q
    }
}

/// The path of one page: `/products?page=<n>&per_page=100`, then the query.
pub open spec fn page_path(page: u64, q: Seq<char>) -> Seq<char> {
    "/products?page="@ + decimal(page as int) + "&per_page=100"@ + query_tail(q)
}

/// A paged product search in progress.
#[derive(Debug)]
pub struct ProductSearch {
    pub client: ApiClient,
    /// The query string of the input's filters.
    pub query: String,
    pub policy: NotFoundPolicy,
    /// Whether the input searched by SKU or text, so that no result at all
    /// counts as "not found".
    pub lookup: bool,
    pub scan: PageScan,
}

/// The result of a search that collected `records`: `{"items": records}`,
/// except that no records at all for a lookup go by the policy (with
/// `{"items": []}` to continue with).
pub open spec fn search_result(
    policy: NotFoundPolicy,
    lookup: bool,
    records: Seq<Json>,
    r: Result<Json, AppError>,
) -> bool {
    if records.len() == 0 && lookup {
        policy_result(policy, r) && (r matches Ok(x) ==> is_items(x, seq![]))
    } else {
        r matches Ok(x) && is_items(x, records)
    }
}

/// Starts the search at page 1. It is a lookup where the input has a `sku`
/// or a `search` field.
pub fn execute(context: &ActionContext) -> (r: Result<ProductSearch, AppError>)
    ensures
        context_values(context.connection.serialized_data@, context.serialized_input@) is None
            ==> context_failure(context.connection.serialized_data@, context.serialized_input@, r),
        context_values(context.connection.serialized_data@, context.serialized_input@) matches Some(
            (c, v),
        ) ==> (r matches Ok(s) && client_of(c, s.client) && s.query@ == query_string(
            v,
            search_params(),
        ) && s.policy == selected_policy(v) && s.lookup == (field(v, "sku"@) is Some || field(
            v,
            "search"@,
        ) is Some) && s.scan.wf() && s.scan.page == 1 && s.scan.records@.len() == 0
            && !s.scan.done),
{
    let (client, input) = match start(context) {
        Ok(s) => s,
        Err(e) => {
            return Err(e);
        },
    };
    let policy = not_found_policy(&input);
    let query = build_query(&input);
    let lookup = input.get("sku").is_some() || input.get("search").is_some();
    Ok(ProductSearch { client, query, policy, lookup, scan: PageScan::new() })
}

impl ProductSearch {
    /// The GET of the current page.
    pub fn next_request(&self) -> (r: HttpRequest)
        requires
            self.scan.wf(),
        ensures
            request_of(
                self.client,
                Method::Get,
                self.client.base_url@ + page_path(self.scan.page, self.query@),
                None,
                r,
            ),
    {
        let mut path = String::from_str("/products?page=");
        let n = decimal_text(self.scan.page as i64);
        path.append(n.as_str());
        path.append("&per_page=100");
        let ghost head = path@;
        assert(head =~= "/products?page="@ + decimal(self.scan.page as int) + "&per_page=100"@);
        if !self.query.as_str().is_empty() {
            path.append("&");
            path.append(self.query.as_str());
            proof {
                reveal_strlit("&");
                assert("&"@ =~= seq!['&']);
                assert(path@ =~= head + query_tail(self.query@));
            }
        } else {
            assert(path@ =~= head + query_tail(self.query@));
        }
        assert(self.client.base_url@ + path@ =~= self.client.base_url@ + page_path(
            self.scan.page,
            self.query@,
        ));
        self.client.get(path.as_str())
    }

    /// Takes in the reply for the current page. A transport failure is
    /// `Other`; a 404 goes by the policy (with `{"items": []}` to continue
    /// with); any other status outside 2xx is `Other`. A 2xx page is added
    /// to the scan; where the scan ends, the result is returned, else `None`
    /// and the next page is to be asked for.
    pub fn on_reply(&mut self, reply: Reply) -> (r: Option<Result<Json, AppError>>)
        requires
            old(self).scan.wf(),
            !old(self).scan.done,
        ensures
            final(self).client == old(self).client,
            final(self).query == old(self).query,
            final(self).policy == old(self).policy,
            final(self).lookup == old(self).lookup,
            final(self).scan.wf(),
            match reply {
                Reply::Failed => (r matches Some(x) && fails_with(x, ErrorCode::Other)),
                Reply::Received { status, body } => if status == 404 {
                    r matches Some(x) && policy_result(old(self).policy, x) && (x matches Ok(y)
                        ==> is_items(y, seq![]))
                } else if !is_success(status) {
                    r matches Some(x) && x matches Err(e) && e.code == ErrorCode::Other
                        && e.message@ == status_message(status, body@)
                } else {
                    let all = match page_records(body@) {
                        Some(items) => old(self).scan.records@ + items,
                        None => old(self).scan.records@,
                    };
                    let done = match page_records(body@) {
                        Some(items) => items.len() < PAGE_SIZE || old(self).scan.page == MAX_PAGES,
                        None => true,
                    };
                    &&& done ==> (r matches Some(x) && search_result(
                        old(self).policy,
                        old(self).lookup,
                        all,
                        x,
                    ))
                    &&& !done ==> (r is None && !final(self).scan.done && final(self).scan.records@
                        == all && final(self).scan.page == old(self).scan.page + 1)
                },
            },
    {
        let (status, body) = match reply {
            Reply::Failed => {
                return Some(Err(app_error(ErrorCode::Other, "Request failed")));
            },
            Reply::Received { status, body } => (status, body),
        };
        if status == 404 {
            return Some(
                handle_not_found(
                    self.policy,
                    items_object(Vec::new()),
                    "No products found for the search",
                ),
            );
        }
        if status < 200 || status >= 300 {
            return Some(Err(status_error(status, body.as_str())));
        }
        self.scan.add_page(parse_page(body.as_str()));
        if !self.scan.done {
            return None;
        }
        let mut records: Vec<Json> = Vec::new();
        std::mem::swap(&mut records, &mut self.scan.records);
        if records.len() == 0 && self.lookup {
            Some(
                handle_not_found(
                    self.policy,
                    items_object(Vec::new()),
                    "No products found for the search",
                ),
            )
        } else {
            Some(Ok(items_object(records)))
        }
    }
}

/// The JSON Schema of this action's input.
pub const INPUT_SCHEMA: &'static str = r#"{"type":"object","properties":{"context":{"type":"string"},"search":{"type":"string"},"after":{"type":"string"},"before":{"type":"string"},"exclude":{"type":"array","items":{"type":"string"}},"include":{"type":"array","items":{"type":"string"}},"offset":{"type":"integer"},"order":{"type":"string"},"orderby":{"type":"string"},"parent":{"type":"integer"},"parent_exclude":{"type":"array","items":{"type":"string"}},"slug":{"type":"string"},"status":{"type":"string"},"type":{"type":"string"},"sku":{"type":"string"},"featured":{"type":"boolean"},"category":{"type":"string"},"tag":{"type":"string"},"shipping_class":{"type":"string"},"attribute":{"type":"string"},"attribute_term":{"type":"string"},"tax_class":{"type":"string"},"on_sale":{"type":"boolean"},"min_price":{"type":"string"},"max_price":{"type":"string"},"stock_status":{"type":"string"},"on_not_found":{"type":"string","enum":["fail","continue","exit_level","exit_execution"]}}}"#;

/// The JSON Schema of this action's output.
pub const OUTPUT_SCHEMA: &'static str = r#"{"type":"object","properties":{"items":{"type":"array","items":{"type":"object"}}},"required":["items"]}"#;

/// The schema of the input, read from `INPUT_SCHEMA`.
pub fn input_schema(_context: &ActionContext) -> (r: Result<Json, AppError>)
    ensures
        schema_outcome(INPUT_SCHEMA@, r),
{
    read_schema(INPUT_SCHEMA)
}

/// The schema of the output, read from `OUTPUT_SCHEMA`.
pub fn output_schema(_context: &ActionContext) -> (r: Result<Json, AppError>)
    ensures
        schema_outcome(OUTPUT_SCHEMA@, r),
{
    read_schema(OUTPUT_SCHEMA)
}

} // verus!
