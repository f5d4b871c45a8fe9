//! The steps that every action shares: reading the context, resolving path
//! parameters, shaping request bodies, and reading replies.
use crate::client::{new_outcome, ApiClient};
use crate::codec::{parse_json, parsed_json};
use crate::error::{AppError, ErrorCode, app_error, fails_with};
use crate::json::{field, str_eq, Json};
use crate::not_found::{policy_of, NotFoundPolicy};
use crate::paging::page_records;
use crate::query::{decimal, decimal_text, names_of};
use vstd::prelude::*;

verus! {

/// The connection configuration that the host hands over, as JSON text.
#[derive(Debug)]
pub struct Connection {
    pub serialized_data: String,
}

/// What the host hands to an action: its connection and its input, each as
/// JSON text.
#[derive(Debug)]
pub struct ActionContext {
    pub connection: Connection,
    pub serialized_input: String,
}

/// What came back for a request: a status and a body, or a transport failure.
#[derive(Debug)]
pub enum Reply {
    Received { status: u16, body: String },
    Failed,
}

/// A 2xx status.
pub open spec fn is_success(status: u16) -> bool {
    200 <= status < 300
}

/// What reading the client from connection text gives: `Other` where the
/// text is not JSON, else what `ApiClient::new` gives.
pub open spec fn client_outcome(text: Seq<char>, r: Result<ApiClient, AppError>) -> bool {
    match parsed_json(text) {
        None => fails_with(r, ErrorCode::Other),
        Some(v) => new_outcome(v, r),
    }
}

/// What reading the input text gives: its value, or `Other` where it is not
/// JSON.
pub open spec fn input_outcome(text: Seq<char>, r: Result<Json, AppError>) -> bool {
    match parsed_json(text) {
        None => fails_with(r, ErrorCode::Other),
        Some(v) => r == Ok::<Json, AppError>(v),
    }
}

/// The client of an action's connection.
pub fn client(context: &ActionContext) -> (r: Result<ApiClient, AppError>)
    ensures
        client_outcome(context.connection.serialized_data@, r),
{
    match parse_json(context.connection.serialized_data.as_str()) {
        Some(v) => ApiClient::new(&v),
        None => Err(app_error(ErrorCode::Other, "Invalid connection configuration")),
    }
}

/// The input of an action.
pub fn input_data(context: &ActionContext) -> (r: Result<Json, AppError>)
    ensures
        input_outcome(context.serialized_input@, r),
{
    match parse_json(context.serialized_input.as_str()) {
        Some(v) => Ok(v),
        None => Err(app_error(ErrorCode::Other, "Invalid input data")),
    }
}

/// The not-found policy that the input selects with `on_not_found`; `Fail`
/// where that field is not a string.
pub open spec fn selected_policy(input: Json) -> NotFoundPolicy {
    match field(input, "on_not_found"@) {
        Some(Json::Str(s)) => policy_of(s@),
        _ => NotFoundPolicy::Fail,
    }
}

/// The not-found policy of an input.
pub fn not_found_policy(input: &Json) -> (r: NotFoundPolicy)
    ensures
        r == selected_policy(*input),
{
    match input.get("on_not_found") {
        Some(Json::Str(s)) => NotFoundPolicy::from_selector(s.as_str()),
        _ => NotFoundPolicy::Fail,
    }
}

/// The text of a path parameter: a string as it is, an integer in decimal.
pub open spec fn id_text(input: Json, name: Seq<char>) -> Option<Seq<char>> {
    match field(input, name) {
        Some(Json::Str(s)) => Some(s@),
        Some(Json::Int(i)) => Some(decimal(i as int)),
        _ => None,
    }
}

/// The text of the path parameter `name`; `Misconfigured` where the input
/// has no string or integer under that name.
pub fn extract_path_parameter(input: &Json, name: &str) -> (r: Result<String, AppError>)
    ensures
        match id_text(*input, name@) {
            Some(t) => (r matches Ok(s) && s@ == t),
            None => fails_with(r, ErrorCode::Misconfigured),
        },
{
    match input.get(name) {
        Some(Json::Str(s)) => Ok(String::from_str(s.as_str())),
        Some(Json::Int(i)) => Ok(decimal_text(*i)),
        _ => Err(app_error(ErrorCode::Misconfigured, "a path parameter is required")),
    }
}

/// The text with every occurrence of `pat`, read from left to right, replaced
/// by `rep`.
pub open spec fn replaced(s: Seq<char>, pat: Seq<char>, rep: Seq<char>) -> Seq<char>
    decreases s.len(),
{
    if pat.len() == 0 || s.len() < pat.len() {
        s
    } else if s.subrange(0, pat.len() as int) == pat {
        rep + replaced(s.subrange(pat.len() as int, s.len() as int), pat, rep)
    } else {
        seq![s[0]] + replaced(s.drop_first(), pat, rep)
    }
}

/// `{name}`.
pub open spec fn placeholder(name: Seq<char>) -> Seq<char> {
    seq!['{'] + name + seq!['}']
}

/// The path template with the placeholder `{name}` replaced by `value`.
pub fn build_endpoint(template: &str, name: &str, value: &str) -> (r: String)
    ensures
        r@ == replaced(template@, placeholder(name@), value@),
{
    let mut pat = String::from_str("{");
    pat.append(name);
    pat.append("}");
    proof {
        reveal_strlit("{");
        reveal_strlit("}");
        assert(pat@ =~= placeholder(name@));
    }
    let pat = pat.as_str();
    let n = template.unicode_len();
    let plen = pat.unicode_len();
    let mut out = String::new();
    let mut i: usize = 0;
    assert(template@.subrange(0, n as int) =~= template@);
    while i < n
        invariant
            i <= n,
            n == template@.len(),
            plen == pat@.len(),
            pat@ == placeholder(name@),
            replaced(template@, pat@, value@) == out@ + replaced(
                template@.subrange(i as int, n as int),
                pat@,
                value@,
            ),
        decreases n - i,
    {
        let ghost rest = template@.subrange(i as int, n as int);
        if plen <= n - i && str_eq(template.substring_char(i, i + plen), pat) {
            assert(rest.subrange(0, plen as int) =~= template@.subrange(i as int, i + plen));
            assert(rest.subrange(plen as int, rest.len() as int) =~= template@.subrange(
                i + plen,
                n as int,
            ));
            out.append(value);
            i = i + plen;
        } else {
            let c = template.substring_char(i, i + 1);
            assert(rest.drop_first() =~= template@.subrange(i + 1, n as int));
            assert(c@ =~= seq![rest[0]]);
            proof {
                if rest.len() < pat@.len() {
                    assert(replaced(rest.drop_first(), pat@, value@) == rest.drop_first());
                    assert(rest =~= seq![rest[0]] + rest.drop_first());
                } else {
                    assert(rest.subrange(0, plen as int) =~= template@.subrange(i as int, i + plen));
                }
            }
            out.append(c);
            i = i + 1;
        }
    }
    out
}

/// Null, an empty string or an empty array.
pub open spec fn is_empty_value(v: Json) -> bool {
    match v {
        Json::Null => true,
        Json::Str(s) => s@.len() == 0,
        Json::Array(a) => a@.len() == 0,
        _ => false,
    }
}

/// The members whose names are not listed, and, where `skip_empty`, whose
/// values are not empty; in order.
pub open spec fn kept_members(m: Seq<(String, Json)>, listed: Seq<Seq<char>>, skip_empty: bool) -> Seq<
    (String, Json),
>
    decreases m.len(),
{
    if m.len() == 0 {
        seq![]
    } else {
        let rest = kept_members(m.drop_first(), listed, skip_empty);
        if listed.contains(m[0].0@) || (skip_empty && is_empty_value(m[0].1)) {
            rest
        } else {
            seq![m[0]] + rest
        }
    }
}

/// Whether a name is in a list.
fn is_listed(name: &str, list: &[&str]) -> (r: bool)
    ensures
        r == names_of(list@).contains(name@),
{
    let mut i: usize = 0;
    while i < list.len()
        invariant
            0 <= i <= list@.len(),
            forall|j: int| 0 <= j < i ==> list@[j]@ != name@,
        decreases list.len() - i,
    {
        if str_eq(list[i], name) {
            assert(names_of(list@)[i as int] == name@);
            return true;
        }
        i = i + 1;
    }
    assert(!names_of(list@).contains(name@)) by {
        if names_of(list@).contains(name@) {
            let j = choose|j: int| 0 <= j < names_of(list@).len() && names_of(list@)[j] == name@;
            assert(list@[j]@ == name@);
        }
    }
    false
}

/// Whether a value is empty.
fn empty_value(v: &Json) -> (r: bool)
    ensures
        r == is_empty_value(*v),
{
    match v {
        Json::Null => true,
        Json::Str(s) => s.as_str().is_empty(),
        Json::Array(a) => a.len() == 0,
        _ => false,
    }
}

/// Keeps the members that `kept_members` keeps.
fn keep_members(m: Vec<(String, Json)>, listed: &[&str], skip_empty: bool) -> (r: Vec<(String, Json)>)
    ensures
        r@ == kept_members(m@, names_of(listed@), skip_empty),
{
    let mut rest = m;
    let mut out: Vec<(String, Json)> = Vec::new();
    let ghost all = rest@;
    while rest.len() > 0
        invariant
            kept_members(all, names_of(listed@), skip_empty) == out@ + kept_members(
                rest@,
                names_of(listed@),
                skip_empty,
            ),
        decreases rest.len(),
    {
        let ghost before = rest@;
        let p = rest.remove(0);
        assert(rest@ =~= before.drop_first());
        let drop = is_listed(p.0.as_str(), listed) || (skip_empty && empty_value(&p.1));
        if !drop {
            let ghost pre = out@;
            out.push(p);
            assert(out@ + kept_members(rest@, names_of(listed@), skip_empty) =~= pre + (seq![p]
                + kept_members(rest@, names_of(listed@), skip_empty)));
        }
    }
    assert(out@ + kept_members(rest@, names_of(listed@), skip_empty) =~= out@);
    out
}

/// The request body of a write: the input object without the listed fields
/// and without empty values. Fails with `Other` where the input is not an
/// object.
pub fn request_body_without_empty_values(input: Json, excluded: &[&str]) -> (r: Result<Json, AppError>)
    ensures
        match input {
            Json::Object(m) => (r matches Ok(Json::Object(k)) && k@ == kept_members(
                m@,
                names_of(excluded@),
                true,
            )),
            _ => fails_with(r, ErrorCode::Other),
        },
{
    match input {
        Json::Object(m) => Ok(Json::Object(keep_members(m, excluded, true))),
        _ => Err(app_error(ErrorCode::Other, "the input must be a JSON object")),
    }
}

/// The names that a customer record never shows.
pub open spec fn hidden_customer_fields() -> Seq<Seq<char>> {
    seq!["password"@, "_links"@]
}

/// A customer record without its `password` and `_links` members; any other
/// value as it is.
pub open spec fn customer_view(v: Json, r: Json) -> bool {
    match v {
        Json::Object(m) => (r matches Json::Object(k) && k@ == kept_members(
            m@,
            hidden_customer_fields(),
            false,
        )),
        _ => r == v,
    }
}

/// Removes `password` and `_links` from a customer record.
pub fn filter_customer_data(customer: Json) -> (r: Json)
    ensures
        customer_view(customer, r),
{
    match customer {
        Json::Object(m) => {
            let hidden = ["password", "_links"];
            let hidden = hidden.as_slice();
            assert(names_of(hidden@) =~= hidden_customer_fields());
            Json::Object(keep_members(m, hidden, false))
        },
        other => other,
    }
}

/// Reads a successful reply's body: its JSON value, or `MalformedResponse`.
pub fn parse_response(body: &str) -> (r: Result<Json, AppError>)
    ensures
        match parsed_json(body@) {
            Some(v) => r == Ok::<Json, AppError>(v),
            None => fails_with(r, ErrorCode::MalformedResponse),
        },
{
    match parse_json(body) {
        Some(v) => Ok(v),
        None => Err(app_error(ErrorCode::MalformedResponse, "Failed to parse JSON response")),
    }
}

/// Reads a page body: the items of a JSON array, or nothing.
pub fn parse_page(body: &str) -> (r: Option<Vec<Json>>)
    ensures
        match page_records(body@) {
            Some(items) => (r matches Some(v) && v@ == items),
            None => r is None,
        },
{
    match parse_json(body) {
        Some(Json::Array(items)) => Some(items),
        _ => None,
    }
}

} // verus!
