//! The transport client: a base URL and headers, from which requests are
//! built. Sending a request and reading its reply is the caller's part.
use crate::codec::{json_text, write_json};
use crate::error::{AppError, ErrorCode, app_error, fails_with};
use crate::json::{field, Json};
use vstd::prelude::*;

verus! {

/// An HTTP method.
#[derive(Clone, Copy, Debug, PartialEq, Eq, Structural)]
pub enum Method {
    Get,
    Post,
    Put,
}

/// One HTTP request, ready to send.
#[derive(Debug)]
pub struct HttpRequest {
    pub method: Method,
    pub url: String,
    pub headers: Vec<(String, String)>,
    pub body: Option<String>,
}

/// A base URL and the headers attached to every request.
#[derive(Debug)]
pub struct ApiClient {
    pub base_url: String,
    pub headers: Vec<(String, String)>,
}

/// The texts of a list of header pairs.
pub open spec fn header_texts(h: Seq<(String, String)>) -> Seq<(Seq<char>, Seq<char>)> {
    h.map_values(|p: (String, String)| (p.0@, p.1@))
}

/// The members of a header object whose values are strings, in order;
/// members of any other type are skipped.
pub open spec fn string_members(members: Seq<(String, Json)>) -> Seq<(Seq<char>, Seq<char>)>
    decreases members.len(),
{
    if members.len() == 0 {
        seq![]
    } else {
        let rest = string_members(members.drop_last());
        match members.last().1 {
            Json::Str(v) => rest.push((members.last().0@, v@)),
            _ => rest,
        }
    }
}

/// The text without its trailing `/` characters.
pub open spec fn trim_end_slashes(s: Seq<char>) -> Seq<char>
    decreases s.len(),
{
    if s.len() > 0 && s.last() == '/' {
        trim_end_slashes(s.drop_last())
    } else {
        s
    }
}

/// The text without its leading `/` characters.
pub open spec fn trim_start_slashes(s: Seq<char>) -> Seq<char>
    decreases s.len(),
{
    if s.len() > 0 && s[0] == '/' {
        trim_start_slashes(s.drop_first())
    } else {
        s
    }
}

/// The URL of a POST: the base without trailing slashes, one `/`, and the
/// path without leading slashes.
pub open spec fn post_url(base: Seq<char>, path: Seq<char>) -> Seq<char> {
    trim_end_slashes(base) + seq!['/'] + trim_start_slashes(path)
}

/// The request that a client sends: its URL, its headers, and the method and
/// body given.
pub open spec fn request_of(
    c: ApiClient,
    method: Method,
    url: Seq<char>,
    body: Option<Seq<char>>,
    r: HttpRequest,
) -> bool {
    &&& r.method == method
    &&& r.url@ == url
    &&& header_texts(r.headers@) == header_texts(c.headers@)
    &&& match body {
        Some(b) => r.body matches Some(t) && t@ == b,
        None => r.body is None,
    }
}

/// An owned copy of a text.
fn copy_text(s: &String) -> (r: String)
    ensures
        r@ == s@,
{
    String::from_str(s.as_str())
}

/// Copies of header pairs.
fn copy_headers(h: &Vec<(String, String)>) -> (r: Vec<(String, String)>)
    ensures
        header_texts(r@) == header_texts(h@),
{
    let mut out: Vec<(String, String)> = Vec::new();
    let mut i: usize = 0;
    while i < h.len()
        invariant
            0 <= i <= h@.len(),
            out@.len() == i,
            forall|j: int| 0 <= j < i ==> out@[j].0@ == h@[j].0@ && out@[j].1@ == h@[j].1@,
        decreases h.len() - i,
    {
        out.push((copy_text(&h[i].0), copy_text(&h[i].1)));
        i = i + 1;
    }
    assert(header_texts(out@) =~= header_texts(h@));
    out
}

/// The text without its trailing `/` characters.
fn trim_end_slash(s: &str) -> (r: String)
    ensures
        r@ == trim_end_slashes(s@),
{
    let mut n = s.unicode_len();
    assert(s@.subrange(0, n as int) =~= s@);
    while n > 0 && s.get_char(n - 1) == '/'
        invariant
            n <= s@.len(),
            trim_end_slashes(s@) == trim_end_slashes(s@.subrange(0, n as int)),
        decreases n,
    {
        assert(s@.subrange(0, n as int).drop_last() =~= s@.subrange(0, n - 1));
        n = n - 1;
    }
    String::from_str(s.substring_char(0, n))
}

/// The text without its leading `/` characters.
fn trim_start_slash(s: &str) -> (r: String)
    ensures
        r@ == trim_start_slashes(s@),
{
    let len = s.unicode_len();
    let mut n: usize = 0;
    assert(s@.subrange(0, len as int) =~= s@);
    while n < len && s.get_char(n) == '/'
        invariant
            n <= len,
            len == s@.len(),
            trim_start_slashes(s@) == trim_start_slashes(s@.subrange(n as int, len as int)),
        decreases len - n,
    {
        assert(s@.subrange(n as int, len as int).drop_first() =~= s@.subrange(n + 1, len as int));
        n = n + 1;
    }
    String::from_str(s.substring_char(n, len))
}

impl ApiClient {
    /// Reads a client from connection data: `base_url` must be a string and
    /// `headers` an object; the string members of `headers` become the
    /// headers.
    pub fn new(connection_data: &Json) -> (r: Result<ApiClient, AppError>)
        ensures
            new_outcome(*connection_data, r),
    {
        let base_url = match connection_data.get("base_url") {
            Some(Json::Str(s)) => copy_text(s),
            _ => {
                return Err(app_error(ErrorCode::Misconfigured, "base_url not found in connection data"));
            },
        };
        let members = match connection_data.get("headers") {
            Some(Json::Object(m)) => m,
            _ => {
                return Err(app_error(ErrorCode::Misconfigured, "Headers not found in connection data"));
            },
        };
        let mut headers: Vec<(String, String)> = Vec::new();
        let mut i: usize = 0;
        while i < members.len()
            invariant
                0 <= i <= members@.len(),
                header_texts(headers@) == string_members(members@.subrange(0, i as int)),
            decreases members.len() - i,
        {
            assert(members@.subrange(0, i + 1).drop_last() =~= members@.subrange(0, i as int));
            match &members[i].1 {
                Json::Str(v) => {
                    headers.push((copy_text(&members[i].0), copy_text(v)));
                    assert(header_texts(headers@) =~= string_members(members@.subrange(0, i as int)).push(
                        (members@[i as int].0@, v@)));
                },
                _ => {},
            }
            i = i + 1;
        }
        assert(members@.subrange(0, members@.len() as int) =~= members@);
        Ok(ApiClient { base_url, headers })
    }

    /// A GET of `base_url` followed directly by `endpoint`.
    pub fn get(&self, endpoint: &str) -> (r: HttpRequest)
        ensures
            request_of(*self, Method::Get, self.base_url@ + endpoint@, None, r),
    {
        let mut url = copy_text(&self.base_url);
        url.append(endpoint);
        HttpRequest { method: Method::Get, url, headers: copy_headers(&self.headers), body: None }
    }

    /// A POST of the body's JSON text to the base URL and `endpoint` joined
    /// by exactly one `/`. A body that could not be written as JSON would
    /// fail with `Other`; every `Json` value can be written.
    pub fn post(&self, endpoint: &str, body: &Json) -> (r: Result<HttpRequest, AppError>)
        ensures
            r matches Ok(q) && request_of(
                *self,
                Method::Post,
                post_url(self.base_url@, endpoint@),
                Some(json_text(*body)),
                q,
            ),
    {
        let text = match write_json(body) {
            Some(t) => t,
            None => {
                return Err(app_error(ErrorCode::Other, "could not serialise the request body"));
            },
        };
        let mut url = trim_end_slash(self.base_url.as_str());
        url.append("/");
        let path = trim_start_slash(endpoint);
        url.append(path.as_str());
        proof {
            reveal_strlit("/");
            assert("/"@ =~= seq!['/']);
        }
        Ok(HttpRequest { method: Method::Post, url, headers: copy_headers(&self.headers), body: Some(text) })
    }

    /// A PUT of the body's JSON text to `base_url` followed directly by
    /// `endpoint`. A body that could not be written as JSON would fail with
    /// `Other`; every `Json` value can be written.
    pub fn put(&self, endpoint: &str, body: &Json) -> (r: Result<HttpRequest, AppError>)
        ensures
            r matches Ok(q) && request_of(
                *self,
                Method::Put,
                self.base_url@ + endpoint@,
                Some(json_text(*body)),
                q,
            ),
    {
        let text = match write_json(body) {
            Some(t) => t,
            None => {
                return Err(app_error(ErrorCode::Other, "could not serialise the request body"));
            },
        };
        let mut url = copy_text(&self.base_url);
        url.append(endpoint);
        Ok(HttpRequest { method: Method::Put, url, headers: copy_headers(&self.headers), body: Some(text) })
    }
}

/// The members of the object member `headers`.
pub open spec fn headers_of(v: Json) -> Option<Seq<(String, Json)>> {
    match field(v, "headers"@) {
        Some(Json::Object(m)) => Some(m@),
        _ => None,
    }
}

/// The client that connection data describes.
pub open spec fn client_of(v: Json, c: ApiClient) -> bool {
    &&& str_of_field(v, "base_url"@) == Some(c.base_url@)
    &&& headers_of(v) matches Some(m)
    &&& header_texts(c.headers@) == string_members(m)
}

/// What reading a client from connection data gives: the client it
/// describes where `base_url` is a string and `headers` an object, else a
/// `Misconfigured` failure.
pub open spec fn new_outcome(v: Json, r: Result<ApiClient, AppError>) -> bool {
    if str_of_field(v, "base_url"@) is Some && headers_of(v) is Some {
        r matches Ok(c) && client_of(v, c)
    } else {
        fails_with(r, ErrorCode::Misconfigured)
    }
}

/// The text of the string member `key` of an object.
pub open spec fn str_of_field(v: Json, key: Seq<char>) -> Option<Seq<char>> {
    match field(v, key) {
        Some(Json::Str(s)) => Some(s@),
        _ => None,
    }
}

} // verus!
