use woo_connector::actions::search_products::ProductSearch;
use woo_connector::actions::{
    create_customer, list_all_products, retrieve_customer_by_id, retrieve_product_by_id,
    search_products, search_products_by_sku, update_customer_by_id,
};
use woo_connector::client::{ApiClient, Method};
use woo_connector::error::ErrorCode;
use woo_connector::json::Json;
use woo_connector::not_found::{handle_not_found, NotFoundPolicy};
use woo_connector::paging::PageScan;
use woo_connector::pipeline::{
    build_endpoint, extract_path_parameter, filter_customer_data, request_body_without_empty_values,
    ActionContext, Connection, Reply,
};
use woo_connector::query::{build_query_parameters, decimal_text};

const CONN: &str = r#"{"base_url": "https://shop.test/wp-json/wc/v3", "headers": {"Authorization": "Basic abc", "X-Num": 5}}"#;

fn ctx(conn: &str, input: &str) -> ActionContext {
    ActionContext {
        connection: Connection { serialized_data: conn.to_string() },
        serialized_input: input.to_string(),
    }
}

fn json(text: &str) -> Json {
    Json::parse(text).expect("test JSON must parse")
}

fn text(v: &Json) -> String {
    v.to_text().expect("value must serialise")
}

fn ok(status: u16, body: &str) -> Reply {
    Reply::Received { status, body: body.to_string() }
}

fn page_body(n: usize) -> String {
    let items: Vec<String> = (0..n).map(|i| format!("{{\"id\": {}}}", i)).collect();
    format!("[{}]", items.join(","))
}

// ---- query builder ----

#[test]
fn query_skips_empty_null_and_empty_array() {
    let input = json(r#"{"search": "", "sku": null, "include": [], "status": "publish"}"#);
    let q = build_query_parameters(&input, &["search", "sku", "include", "status"]);
    assert_eq!(q, "status=publish");
}

#[test]
fn query_follows_allow_list_order_not_input_order() {
    let input = json(r#"{"order": "asc", "per_page": 10, "featured": true, "search": "red shoe"}"#);
    let q = build_query_parameters(&input, &["search", "featured", "per_page", "order"]);
    assert_eq!(q, "search=red%20shoe&featured=true&per_page=10&order=asc");
    let again = build_query_parameters(&input, &["search", "featured", "per_page", "order"]);
    assert_eq!(q, again);
}

#[test]
fn query_joins_array_then_encodes_once() {
    let input = json(r#"{"include": ["12", "", "34", 5, "a b"]}"#);
    let q = build_query_parameters(&input, &["include"]);
    assert_eq!(q, "include=12%2C34%2Ca%20b");
}

#[test]
fn query_encodes_non_ascii_as_utf8_bytes() {
    let input = json(r#"{"search": "café~-._"}"#);
    let q = build_query_parameters(&input, &["search"]);
    assert_eq!(q, "search=caf%C3%A9~-._");
}

#[test]
fn query_writes_integers_and_booleans_and_skips_objects_and_fractions() {
    let input = json(r#"{"offset": -7, "on_sale": false, "attribute": {"a": 1}, "min_price": 9.5}"#);
    let q = build_query_parameters(&input, &["offset", "on_sale", "attribute", "min_price"]);
    assert_eq!(q, "offset=-7&on_sale=false");
}

#[test]
fn query_with_empty_field_equals_query_without_it() {
    let names = ["search", "sku", "include", "status"];
    let without = build_query_parameters(&json(r#"{"status": "publish"}"#), &names);
    for e in ["null", "\"\"", "[]"] {
        let with = build_query_parameters(&json(&format!(r#"{{"status": "publish", "sku": {}}}"#, e)), &names);
        assert_eq!(with, without);
        assert!(with.split('&').all(|pair| !pair.starts_with("sku=")));
    }
}

#[test]
fn query_escapes_reserved_characters() {
    let input = json(r#"{"search": "a&b=c?d/e+f"}"#);
    assert_eq!(build_query_parameters(&input, &["search"]), "search=a%26b%3Dc%3Fd%2Fe%2Bf");
}

#[test]
fn query_of_nothing_is_empty() {
    let input = json(r#"{"other": "x"}"#);
    assert_eq!(build_query_parameters(&input, &["search"]), "");
    assert_eq!(build_query_parameters(&json("[1]"), &["search"]), "");
}

#[test]
fn decimal_text_of_extremes() {
    assert_eq!(decimal_text(0), "0");
    assert_eq!(decimal_text(1234567890), "1234567890");
    assert_eq!(decimal_text(i64::MIN), "-9223372036854775808");
    assert_eq!(decimal_text(i64::MAX), "9223372036854775807");
}

// ---- not-found policy ----

#[test]
fn policy_selectors() {
    assert_eq!(NotFoundPolicy::from_selector("continue"), NotFoundPolicy::Continue);
    assert_eq!(NotFoundPolicy::from_selector("exit_level"), NotFoundPolicy::ExitLevel);
    assert_eq!(NotFoundPolicy::from_selector("exit_execution"), NotFoundPolicy::ExitExecution);
    assert_eq!(NotFoundPolicy::from_selector("fail"), NotFoundPolicy::Fail);
    assert_eq!(NotFoundPolicy::from_selector("whatever"), NotFoundPolicy::Fail);
    assert_eq!(NotFoundPolicy::from_selector(""), NotFoundPolicy::Fail);
}

#[test]
fn policy_outcomes() {
    let r = handle_not_found(NotFoundPolicy::Continue, json("{}"), "gone");
    assert_eq!(text(&r.unwrap()), "{}");
    let e = handle_not_found(NotFoundPolicy::ExitLevel, json("{}"), "gone").unwrap_err();
    assert_eq!(e.code, ErrorCode::CompleteParent);
    assert_eq!(e.message, "gone");
    let e = handle_not_found(NotFoundPolicy::ExitExecution, json("{}"), "gone").unwrap_err();
    assert_eq!(e.code, ErrorCode::CompleteWorkflow);
    let e = handle_not_found(NotFoundPolicy::Fail, json("{}"), "gone").unwrap_err();
    assert_eq!(e.code, ErrorCode::Other);
}

// ---- transport client ----

#[test]
fn client_reads_base_url_and_string_headers() {
    let c = ApiClient::new(&json(CONN)).unwrap();
    assert_eq!(c.base_url, "https://shop.test/wp-json/wc/v3");
    assert_eq!(c.headers, vec![("Authorization".to_string(), "Basic abc".to_string())]);
}

#[test]
fn client_without_base_url_or_headers_is_misconfigured() {
    let e = ApiClient::new(&json(r#"{"headers": {}}"#)).unwrap_err();
    assert_eq!(e.code, ErrorCode::Misconfigured);
    let e = ApiClient::new(&json(r#"{"base_url": "http://x", "headers": ["a"]}"#)).unwrap_err();
    assert_eq!(e.code, ErrorCode::Misconfigured);
    let e = ApiClient::new(&json(r#"{"base_url": 3, "headers": {}}"#)).unwrap_err();
    assert_eq!(e.code, ErrorCode::Misconfigured);
}

#[test]
fn get_and_put_concatenate_post_joins_with_one_slash() {
    let c = ApiClient::new(&json(r#"{"base_url": "http://x/api//", "headers": {"A": "1"}}"#)).unwrap();
    let g = c.get("/items");
    assert_eq!(g.method, Method::Get);
    assert_eq!(g.url, "http://x/api///items");
    assert!(g.body.is_none());
    assert_eq!(g.headers, vec![("A".to_string(), "1".to_string())]);
    let p = c.post("//items", &json(r#"{"a": 1}"#)).unwrap();
    assert_eq!(p.method, Method::Post);
    assert_eq!(p.url, "http://x/api/items");
    assert_eq!(p.body.as_deref(), Some(r#"{"a":1}"#));
    let u = c.put("/items/3", &json(r#"{"b": "c"}"#)).unwrap();
    assert_eq!(u.method, Method::Put);
    assert_eq!(u.url, "http://x/api///items/3");
    assert_eq!(u.body.as_deref(), Some(r#"{"b":"c"}"#));
}

// ---- shared pipeline ----

#[test]
fn endpoint_template_is_filled() {
    assert_eq!(build_endpoint("/customers/{customerId}", "customerId", "17"), "/customers/17");
    assert_eq!(build_endpoint("/a/{id}/b/{id}", "id", "x"), "/a/x/b/x");
    assert_eq!(build_endpoint("/a/{other}", "id", "x"), "/a/{other}");
}

#[test]
fn path_parameter_string_or_integer() {
    let input = json(r#"{"a": "abc", "b": 42, "c": true}"#);
    assert_eq!(extract_path_parameter(&input, "a").unwrap(), "abc");
    assert_eq!(extract_path_parameter(&input, "b").unwrap(), "42");
    assert_eq!(extract_path_parameter(&input, "c").unwrap_err().code, ErrorCode::Misconfigured);
    assert_eq!(extract_path_parameter(&input, "d").unwrap_err().code, ErrorCode::Misconfigured);
}

#[test]
fn body_drops_excluded_and_empty_fields() {
    let input = json(r#"{"id": 3, "a": "", "b": null, "c": [], "d": {}, "e": "x", "f": 0, "g": false}"#);
    let body = request_body_without_empty_values(input, &["id"]).unwrap();
    assert_eq!(text(&body), r#"{"d":{},"e":"x","f":0,"g":false}"#);
    let e = request_body_without_empty_values(json("[1]"), &["id"]).unwrap_err();
    assert_eq!(e.code, ErrorCode::Other);
}

#[test]
fn customer_filter_removes_password_and_links() {
    let c = json(r#"{"id": 1, "password": "p", "_links": {"self": []}, "email": "a@b"}"#);
    assert_eq!(text(&filter_customer_data(c)), r#"{"email":"a@b","id":1}"#);
    assert_eq!(text(&filter_customer_data(json("[1]"))), "[1]");
}

// ---- pagination ----

#[test]
fn scan_of_pages_100_100_37_collects_237_in_3_steps() {
    let mut s = PageScan::new();
    let mut calls = 0;
    for n in [100usize, 100, 37, 100] {
        if s.done {
            break;
        }
        s.add_page(Json::parse(&page_body(n)).map(|v| match v {
            Json::Array(a) => a,
            _ => panic!("array expected"),
        }));
        calls += 1;
    }
    assert!(s.done);
    assert_eq!(calls, 3);
    assert_eq!(s.records.len(), 237);
}

fn search(input: &str) -> ProductSearch {
    search_products::execute(&ctx(CONN, input)).unwrap()
}

#[test]
fn paged_search_asks_three_pages_and_returns_237_items() {
    let mut s = search(r#"{"status": "publish", "page": 9}"#);
    let mut urls = Vec::new();
    let mut result = None;
    for n in [100usize, 100, 37] {
        urls.push(s.next_request().url);
        if let Some(r) = s.on_reply(ok(200, &page_body(n))) {
            result = Some(r);
            break;
        }
    }
    assert_eq!(urls.len(), 3);
    assert_eq!(urls[0], "https://shop.test/wp-json/wc/v3/products?page=1&per_page=100&status=publish");
    assert_eq!(urls[2], "https://shop.test/wp-json/wc/v3/products?page=3&per_page=100&status=publish");
    let v = result.unwrap().unwrap();
    match v {
        Json::Object(m) => {
            assert_eq!(m.len(), 1);
            assert_eq!(m[0].0, "items");
            match &m[0].1 {
                Json::Array(a) => assert_eq!(a.len(), 237),
                _ => panic!("items must be an array"),
            }
        }
        _ => panic!("object expected"),
    }
}

#[test]
fn paged_search_keeps_records_before_a_malformed_page() {
    let mut s = search("{}");
    assert!(s.on_reply(ok(200, &page_body(100))).is_none());
    let v = s.on_reply(ok(200, "not json")).unwrap().unwrap();
    match v {
        Json::Object(m) => match &m[0].1 {
            Json::Array(a) => assert_eq!(a.len(), 100),
            _ => panic!("items must be an array"),
        },
        _ => panic!("object expected"),
    }
}

#[test]
fn paged_search_errors() {
    let mut s = search("{}");
    assert_eq!(s.on_reply(Reply::Failed).unwrap().unwrap_err().code, ErrorCode::Other);
    let mut s = search("{}");
    let e = s.on_reply(ok(500, "boom")).unwrap().unwrap_err();
    assert_eq!(e.code, ErrorCode::Other);
    assert_eq!(e.message, "API error: 500 - boom");
    let mut s = search(r#"{"search": "x", "on_not_found": "exit_level"}"#);
    assert_eq!(s.on_reply(ok(200, "[]")).unwrap().unwrap_err().code, ErrorCode::CompleteParent);
    let mut s = search(r#"{"search": "x", "on_not_found": "continue"}"#);
    assert_eq!(text(&s.on_reply(ok(404, "")).unwrap().unwrap()), r#"{"items":[]}"#);
    let mut s = search("{}");
    assert_eq!(text(&s.on_reply(ok(200, "[]")).unwrap().unwrap()), r#"{"items":[]}"#);
}

// ---- end-to-end scenarios ----

#[test]
fn customer_update_by_id_puts_without_id_and_filters_reply() {
    let p = create_customer::execute(&ctx(CONN, r#"{"id": 42, "name": "Jane"}"#)).unwrap();
    assert_eq!(p.request.method, Method::Put);
    assert_eq!(p.request.url, "https://shop.test/wp-json/wc/v3/customers/42");
    assert_eq!(p.request.body.as_deref(), Some(r#"{"name":"Jane"}"#));
    let r = create_customer::finish(ok(200, r#"{"id": 42, "name": "Jane", "password": "s", "_links": {}}"#)).unwrap();
    assert_eq!(text(&r), r#"{"id":42,"name":"Jane"}"#);
}

#[test]
fn customer_create_without_id_posts() {
    let p = create_customer::execute(&ctx(CONN, r#"{"email": "a@b", "first_name": ""}"#)).unwrap();
    assert_eq!(p.request.method, Method::Post);
    assert_eq!(p.request.url, "https://shop.test/wp-json/wc/v3/customers");
    assert_eq!(p.request.body.as_deref(), Some(r#"{"email":"a@b"}"#));
    let e = create_customer::finish(ok(400, "bad")).unwrap_err();
    assert_eq!(e.code, ErrorCode::Other);
    assert_eq!(e.message, "API error: 400 - bad");
    let e = create_customer::finish(ok(201, "<html>")).unwrap_err();
    assert_eq!(e.code, ErrorCode::MalformedResponse);
    assert_eq!(create_customer::finish(Reply::Failed).unwrap_err().code, ErrorCode::Other);
}

fn sku_search(input: &str, reply: Reply) -> Result<Json, woo_connector::error::AppError> {
    let p = search_products_by_sku::execute(&ctx(CONN, input)).unwrap();
    search_products_by_sku::finish(&p, reply)
}

#[test]
fn sku_search_without_match_fails_by_default() {
    let e = sku_search(r#"{"sku": "ABC"}"#, ok(200, "[]")).unwrap_err();
    assert_eq!(e.code, ErrorCode::Other);
}

#[test]
fn sku_search_without_match_continues_with_empty_items() {
    let r = sku_search(r#"{"sku": "ABC", "on_not_found": "continue"}"#, ok(200, "[]")).unwrap();
    assert_eq!(text(&r), r#"{"items":[]}"#);
}

#[test]
fn sku_search_keeps_exact_matches_only() {
    let body = r#"[{"sku": "ABC-1"}, {"sku": "ABC", "id": 1}, {"id": 2}]"#;
    let r = sku_search(r#"{"sku": "ABC"}"#, ok(200, body)).unwrap();
    assert_eq!(text(&r), r#"{"items":[{"id":1,"sku":"ABC"}]}"#);
    let e = sku_search(r#"{"sku": "ABC", "on_not_found": "exit_execution"}"#, ok(200, r#"[{"sku": "X"}]"#)).unwrap_err();
    assert_eq!(e.code, ErrorCode::CompleteWorkflow);
}

#[test]
fn sku_search_request_defaults_and_page_inputs() {
    let p = search_products_by_sku::execute(&ctx(CONN, r#"{"sku": "A B"}"#)).unwrap();
    assert_eq!(p.request.url, "https://shop.test/wp-json/wc/v3/products?page=1&per_page=100&sku=A%20B");
    let p = search_products_by_sku::execute(&ctx(CONN, r#"{"page": 3, "per_page": 5}"#)).unwrap();
    assert_eq!(p.request.url, "https://shop.test/wp-json/wc/v3/products?page=3&per_page=5");
    let r = search_products_by_sku::finish(&p, ok(200, r#"[{"id": 1}]"#)).unwrap();
    assert_eq!(text(&r), r#"{"items":[{"id":1}]}"#);
}

#[test]
fn malformed_connection_fails_before_any_request() {
    let bad = "{not json";
    let input = r#"{"customerId": 1, "productId": 2}"#;
    assert_eq!(create_customer::execute(&ctx(bad, input)).unwrap_err().code, ErrorCode::Other);
    assert_eq!(list_all_products::execute(&ctx(bad, input)).unwrap_err().code, ErrorCode::Other);
    assert_eq!(retrieve_customer_by_id::execute(&ctx(bad, input)).unwrap_err().code, ErrorCode::Other);
    assert_eq!(retrieve_product_by_id::execute(&ctx(bad, input)).unwrap_err().code, ErrorCode::Other);
    assert_eq!(search_products::execute(&ctx(bad, input)).unwrap_err().code, ErrorCode::Other);
    assert_eq!(search_products_by_sku::execute(&ctx(bad, input)).unwrap_err().code, ErrorCode::Other);
    assert_eq!(update_customer_by_id::execute(&ctx(bad, input)).unwrap_err().code, ErrorCode::Other);
    let e = retrieve_product_by_id::execute(&ctx(r#"{"headers": {}}"#, input)).unwrap_err();
    assert_eq!(e.code, ErrorCode::Misconfigured);
    let e = retrieve_product_by_id::execute(&ctx(CONN, "nope")).unwrap_err();
    assert_eq!(e.code, ErrorCode::Other);
}

#[test]
fn retrieve_customer_flow() {
    let p = retrieve_customer_by_id::execute(&ctx(CONN, r#"{"customerId": "7", "on_not_found": "exit_level"}"#)).unwrap();
    assert_eq!(p.request.url, "https://shop.test/wp-json/wc/v3/customers/7");
    assert_eq!(p.request.method, Method::Get);
    assert_eq!(p.request.headers, vec![("Authorization".to_string(), "Basic abc".to_string())]);
    let e = retrieve_customer_by_id::finish(&p, ok(404, "")).unwrap_err();
    assert_eq!(e.code, ErrorCode::CompleteParent);
    let r = retrieve_customer_by_id::finish(&p, ok(200, r#"{"id": 7, "password": "x"}"#)).unwrap();
    assert_eq!(text(&r), r#"{"id":7}"#);
    let e = retrieve_customer_by_id::execute(&ctx(CONN, r#"{"on_not_found": "continue"}"#)).unwrap_err();
    assert_eq!(e.code, ErrorCode::Misconfigured);
}

#[test]
fn update_customer_flow() {
    let input = r#"{"customerId": 9, "on_not_found": "continue", "email": "n@m", "note": ""}"#;
    let p = update_customer_by_id::execute(&ctx(CONN, input)).unwrap();
    assert_eq!(p.request.method, Method::Put);
    assert_eq!(p.request.url, "https://shop.test/wp-json/wc/v3/customers/9");
    assert_eq!(p.request.body.as_deref(), Some(r#"{"email":"n@m"}"#));
    assert_eq!(text(&update_customer_by_id::finish(&p, ok(404, "")).unwrap()), "{}");
    let e = update_customer_by_id::finish(&p, ok(503, "down")).unwrap_err();
    assert_eq!(e.message, "API error: 503 - down");
}

#[test]
fn retrieve_product_flow() {
    let p = retrieve_product_by_id::execute(&ctx(CONN, r#"{"productId": 5}"#)).unwrap();
    assert_eq!(p.request.url, "https://shop.test/wp-json/wc/v3/products/5");
    assert_eq!(retrieve_product_by_id::finish(ok(404, "")).unwrap_err().code, ErrorCode::Other);
    let r = retrieve_product_by_id::finish(ok(200, r#"{"id": 5, "password": "kept"}"#)).unwrap();
    assert_eq!(text(&r), r#"{"id":5,"password":"kept"}"#);
}

#[test]
fn list_all_products_flow() {
    let p = list_all_products::execute(&ctx(CONN, r#"{"sku": "ABC", "page": 2, "virtual": true}"#)).unwrap();
    assert_eq!(p.request.url, "https://shop.test/wp-json/wc/v3/products?page=2&sku=ABC&virtual=true");
    let body = r#"[{"sku": "ABCD", "id": 1}, {"sku": "ABC", "id": 2}, {"sku": "ABC", "id": 3}]"#;
    assert_eq!(text(&list_all_products::finish(&p, ok(200, body)).unwrap()), r#"{"id":2,"sku":"ABC"}"#);
    assert_eq!(list_all_products::finish(&p, ok(200, "{}")).unwrap_err().code, ErrorCode::MalformedResponse);
    assert_eq!(list_all_products::finish(&p, ok(200, "[]")).unwrap_err().code, ErrorCode::Other);
    let p = list_all_products::execute(&ctx(CONN, "{}")).unwrap();
    assert_eq!(p.request.url, "https://shop.test/wp-json/wc/v3/products");
    assert_eq!(text(&list_all_products::finish(&p, ok(200, "[1,2]")).unwrap()), "[1,2]");
    assert_eq!(list_all_products::finish(&p, ok(404, "")).unwrap_err().message, "API error: 404 - ");
}

#[test]
fn schemas_are_json_objects() {
    let c = ctx(CONN, "{}");
    let all = [
        (create_customer::input_schema(&c), create_customer::output_schema(&c)),
        (list_all_products::input_schema(&c), list_all_products::output_schema(&c)),
        (retrieve_customer_by_id::input_schema(&c), retrieve_customer_by_id::output_schema(&c)),
        (retrieve_product_by_id::input_schema(&c), retrieve_product_by_id::output_schema(&c)),
        (search_products::input_schema(&c), search_products::output_schema(&c)),
        (search_products_by_sku::input_schema(&c), search_products_by_sku::output_schema(&c)),
        (update_customer_by_id::input_schema(&c), update_customer_by_id::output_schema(&c)),
    ];
    for (i, o) in all {
        assert!(matches!(i.unwrap(), Json::Object(_)));
        assert!(matches!(o.unwrap(), Json::Object(_)));
    }
    let s = text(&retrieve_product_by_id::input_schema(&c).unwrap());
    assert_eq!(
        s,
        r#"{"properties":{"productId":{"type":["string","integer"]}},"required":["productId"],"type":"object"}"#
    );
}
