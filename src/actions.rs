//! The actions, and what they share in reading replies.
//!
//! An action is run in two parts: `execute` reads the context and builds the
//! request to send; a second function reads what came back. The paged
//! product search asks for one page after another in between.
use crate::client::{client_of, header_texts, headers_of, string_members, str_of_field, ApiClient, HttpRequest, Method};
use crate::codec::parsed_json;
use crate::error::{AppError, ErrorCode, app_error, fails_with};
use crate::json::{str_eq, Json};
use crate::not_found::{failure_code, handle_not_found, NotFoundPolicy};
use crate::pipeline::{
    client, customer_view, filter_customer_data, input_data, is_success, parse_response, ActionContext,
    Reply,
};
use crate::query::{decimal, decimal_text};
use vstd::prelude::*;

pub mod create_customer;
pub mod list_all_products;
pub mod retrieve_customer_by_id;
pub mod retrieve_product_by_id;
pub mod search_products;
pub mod search_products_by_sku;
pub mod update_customer_by_id;

verus! {

/// A request to send, and what its action keeps to read the reply.
#[derive(Debug)]
pub struct Pending {
    pub request: HttpRequest,
    /// What to do where the target does not exist.
    pub policy: NotFoundPolicy,
    /// Whether a 404 reply counts as "not found" rather than as a failure.
    pub lookup: bool,
    /// The SKU to match exactly, if the input gave one.
    pub sku: Option<String>,
}

/// The connection and input values of a context that reads: both texts are
/// JSON, and the connection has a string `base_url` and an object `headers`.
pub open spec fn context_values(conn: Seq<char>, input: Seq<char>) -> Option<(Json, Json)> {
    match (parsed_json(conn), parsed_json(input)) {
        (Some(c), Some(v)) => if str_of_field(c, "base_url"@) is Some && headers_of(c) is Some {
            Some((c, v))
        } else {
            None
        },
        _ => None,
    }
}

/// How a context that does not read fails: `Other` where the connection
/// text is not JSON, `Misconfigured` where it lacks `base_url` or `headers`,
/// `Other` where the input text is not JSON.
pub open spec fn context_failure<T>(conn: Seq<char>, input: Seq<char>, r: Result<T, AppError>) -> bool {
    match parsed_json(conn) {
        None => fails_with(r, ErrorCode::Other),
        Some(c) => if !(str_of_field(c, "base_url"@) is Some && headers_of(c) is Some) {
            fails_with(r, ErrorCode::Misconfigured)
        } else {
            fails_with(r, ErrorCode::Other)
        },
    }
}

/// Reads the client and the input of a context.
pub fn start(context: &ActionContext) -> (r: Result<(ApiClient, Json), AppError>)
    ensures
        context_values(context.connection.serialized_data@, context.serialized_input@) is None
            ==> context_failure(context.connection.serialized_data@, context.serialized_input@, r),
        context_values(context.connection.serialized_data@, context.serialized_input@) matches Some(
            (c, v),
        ) ==> (r matches Ok((k, x)) && client_of(c, k) && x == v),
{
    let k = match client(context) {
        Ok(k) => k,
        Err(e) => {
            return Err(e);
        },
    };
    match input_data(context) {
        Ok(x) => Ok((k, x)),
        Err(e) => Err(e),
    }
}

/// The `base_url` of a connection.
pub open spec fn base_of(conn: Json) -> Seq<char> {
    match str_of_field(conn, "base_url"@) {
        Some(b) => b,
        None => seq![],
    }
}

/// A request to a connection: the method, URL and body given, and the
/// connection's string headers.
pub open spec fn request_to(
    conn: Json,
    method: Method,
    url: Seq<char>,
    body: Option<Seq<char>>,
    r: HttpRequest,
) -> bool {
    &&& r.method == method
    &&& r.url@ == url
    &&& headers_of(conn) matches Some(m)
    &&& header_texts(r.headers@) == string_members(m)
    &&& match body {
        Some(b) => (r.body matches Some(t) && t@ == b),
        None => r.body is None,
    }
}

/// Success for `Continue`, else the policy's failure code.
pub open spec fn policy_result(p: NotFoundPolicy, r: Result<Json, AppError>) -> bool {
    match failure_code(p) {
        None => r is Ok,
        Some(code) => fails_with(r, code),
    }
}

/// An object with no members.
pub open spec fn is_empty_object(v: Json) -> bool {
    v matches Json::Object(m) && m@.len() == 0
}

/// An object whose one member `items` holds the records.
pub open spec fn is_items(v: Json, records: Seq<Json>) -> bool {
    match v {
        Json::Object(m) => m@.len() == 1 && m@[0].0@ == "items"@ && (m@[0].1 matches Json::Array(a)
            && a@ == records),
        _ => false,
    }
}

/// The SKU of a record, where it is a string.
pub open spec fn sku_of(record: Json) -> Option<Seq<char>> {
    str_of_field(record, "sku"@)
}

/// The message of a failed status: `API error: <status> - <body>`.
pub open spec fn status_message(status: u16, body: Seq<char>) -> Seq<char> {
    "API error: "@ + decimal(status as int) + " - "@ + body
}

/// A failure that carries the status and body of the reply.
pub fn status_error(status: u16, body: &str) -> (e: AppError)
    ensures
        e.code == ErrorCode::Other,
        e.message@ == status_message(status, body@),
{
    let mut m = String::from_str("API error: ");
    let d = decimal_text(status as i64);
    m.append(d.as_str());
    m.append(" - ");
    m.append(body);
    AppError { code: ErrorCode::Other, message: m }
}

/// An object with no members.
pub fn empty_object() -> (r: Json)
    ensures
        is_empty_object(r),
{
    Json::Object(Vec::new())
}

/// `{"items": records}`.
pub fn items_object(records: Vec<Json>) -> (r: Json)
    ensures
        is_items(r, records@),
{
    let mut m: Vec<(String, Json)> = Vec::new();
    m.push((String::from_str("items"), Json::Array(records)));
    Json::Object(m)
}

/// What reading the reply to a request for one record gives. A transport
/// failure is `Other`. A 404, where a policy is given, goes by that policy,
/// with an empty object to continue with. Any other status outside 2xx is
/// `Other`. A 2xx body that is not JSON is `MalformedResponse`; one that is
/// gives its value, through the customer filter where `customer` is set.
pub open spec fn record_outcome(
    reply: Reply,
    policy: Option<NotFoundPolicy>,
    customer: bool,
    r: Result<Json, AppError>,
) -> bool {
    match reply {
        Reply::Failed => fails_with(r, ErrorCode::Other),
        Reply::Received { status, body } => if status == 404 && policy is Some {
            &&& policy_result(policy->Some_0, r)
            &&& (r matches Ok(x) ==> is_empty_object(x))
        } else if !is_success(status) {
            r matches Err(e) && e.code == ErrorCode::Other && e.message@ == status_message(
                status,
                body@,
            )
        } else {
            match parsed_json(body@) {
                None => fails_with(r, ErrorCode::MalformedResponse),
                Some(v) => if customer {
                    r matches Ok(x) && customer_view(v, x)
                } else {
                    r == Ok::<Json, AppError>(v)
                },
            }
        },
    }
}

/// Reads the reply to a request for one record.
pub fn read_record(reply: Reply, policy: Option<NotFoundPolicy>, customer: bool, message: &str) -> (r:
    Result<Json, AppError>)
    ensures
        record_outcome(reply, policy, customer, r),
{
    match reply {
        Reply::Failed => Err(app_error(ErrorCode::Other, "Request failed")),
        Reply::Received { status, body } => {
            if status == 404 && policy.is_some() {
                match policy {
                    Some(p) => handle_not_found(p, empty_object(), message),
                    None => Err(app_error(ErrorCode::Other, message)),
                }
            } else if status < 200 || status >= 300 {
                Err(status_error(status, body.as_str()))
            } else {
                match parse_response(body.as_str()) {
                    Ok(v) => if customer {
                        Ok(filter_customer_data(v))
                    } else {
                        Ok(v)
                    },
                    Err(e) => Err(e),
                }
            }
        },
    }
}

/// The first record whose SKU is `sku`.
pub open spec fn first_with_sku(records: Seq<Json>, sku: Seq<char>) -> Option<Json>
    decreases records.len(),
{
    if records.len() == 0 {
        None
    } else if sku_of(records[0]) == Some(sku) {
        Some(records[0])
    } else {
        first_with_sku(records.drop_first(), sku)
    }
}

/// The records whose SKU is `sku`, in order.
pub open spec fn with_sku(records: Seq<Json>, sku: Seq<char>) -> Seq<Json>
    decreases records.len(),
{
    if records.len() == 0 {
        seq![]
    } else {
        let rest = with_sku(records.drop_first(), sku);
        if sku_of(records[0]) == Some(sku) {
            seq![records[0]] + rest
        } else {
            rest
        }
    }
}

/// Whether a record's SKU is `sku`.
pub fn has_sku(record: &Json, sku: &str) -> (r: bool)
    ensures
        r == (sku_of(*record) == Some(sku@)),
{
    match record_sku(record) {
        Some(t) => str_eq(t, sku),
        None => false,
    }
}

/// The first record whose SKU is `sku`.
pub fn take_first_with_sku(records: Vec<Json>, sku: &str) -> (r: Option<Json>)
    ensures
        r == first_with_sku(records@, sku@),
{
    let mut v = records;
    let mut i: usize = 0;
    assert(v@.subrange(0, v@.len() as int) =~= v@);
    while i < v.len()
        invariant
            0 <= i <= v@.len(),
            v@ == records@,
            first_with_sku(v@, sku@) == first_with_sku(v@.subrange(i as int, v@.len() as int), sku@),
        decreases v.len() - i,
    {
        let ghost rest = v@.subrange(i as int, v@.len() as int);
        assert(rest.drop_first() =~= v@.subrange(i + 1, v@.len() as int));
        assert(rest[0] == v@[i as int]);
        if has_sku(&v[i], sku) {
            return Some(v.remove(i));
        }
        i = i + 1;
    }
    None
}

/// The records whose SKU is `sku`.
pub fn keep_with_sku(records: Vec<Json>, sku: &str) -> (r: Vec<Json>)
    ensures
        r@ == with_sku(records@, sku@),
{
    let mut rest = records;
    let mut out: Vec<Json> = Vec::new();
    let ghost all = rest@;
    while rest.len() > 0
        invariant
            with_sku(all, sku@) == out@ + with_sku(rest@, sku@),
        decreases rest.len(),
    {
        let ghost before = rest@;
        let x = rest.remove(0);
        assert(rest@ =~= before.drop_first());
        if has_sku(&x, sku) {
            let ghost pre = out@;
            out.push(x);
            assert(out@ + with_sku(rest@, sku@) =~= pre + (seq![x] + with_sku(rest@, sku@)));
        }
    }
    assert(out@ + with_sku(rest@, sku@) =~= out@);
    out
}

/// What reading a schema document gives: its value, or `Other` where the
/// document is not JSON.
pub open spec fn schema_outcome(text: Seq<char>, r: Result<Json, AppError>) -> bool {
    match parsed_json(text) {
        Some(v) => r == Ok::<Json, AppError>(v),
        None => fails_with(r, ErrorCode::Other),
    }
}

/// Reads a schema document.
pub fn read_schema(text: &str) -> (r: Result<Json, AppError>)
    ensures
        schema_outcome(text@, r),
{
    match Json::parse(text) {
        Some(v) => Ok(v),
        None => Err(app_error(ErrorCode::Other, "Failed to parse schema")),
    }
}

/// The SKU of a record, where it is a string.
pub fn record_sku(record: &Json) -> (r: Option<&str>)
    ensures
        match sku_of(*record) {
            Some(s) => (r matches Some(t) && t@ == s),
            None => r is None,
        },
{
    match record.get("sku") {
        Some(Json::Str(s)) => Some(s.as_str()),
        _ => None,
    }
}

} // verus!
