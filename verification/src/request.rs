use vstd::prelude::*;
use vstd::string::*;

verus! {

/// The HTTP method of a request to the Lightroom API.
#[derive(Clone, Copy, Debug, PartialEq, Eq, Structural)]
pub enum Method {
    Get,
    Post,
}

/// Everything that decides what is sent for one API call: method, URI,
/// plain headers in order, and the bearer token that goes in the
/// `Authorization` header, if any.
#[derive(Debug)]
pub struct RequestPlan {
    pub method: Method,
    pub url: String,
    pub headers: Vec<(String, String)>,
    pub bearer_token: Option<String>,
}

/// A request as text: what a `RequestPlan` stands for.
pub struct RequestView {
    pub method: Method,
    pub url: Seq<char>,
    pub headers: Seq<(Seq<char>, Seq<char>)>,
    pub bearer_token: Option<Seq<char>>,
}

/// The text of a header pair.
pub open spec fn header_view(h: (String, String)) -> (Seq<char>, Seq<char>) {
    (h.0@, h.1@)
}

/// The text of an optional string.
pub open spec fn opt_view(s: Option<String>) -> Option<Seq<char>> {
    match s {
        Some(t) => Some(t@),
        None => None,
    }
}

impl View for RequestPlan {
    type V = RequestView;

    open spec fn view(&self) -> RequestView {
        RequestView {
            method: self.method,
            url: self.url@,
            headers: self.headers@.map_values(|h: (String, String)| header_view(h)),
            bearer_token: opt_view(self.bearer_token),
        }
    }
}

/// The headers that every call to the API carries: the client id as API
/// key, and JSON as content type.
pub open spec fn basic_headers(client_id: Seq<char>) -> Seq<(Seq<char>, Seq<char>)> {
    seq![("x-api-key"@, client_id), ("content-type"@, "application/json"@)]
}

/// A GET request with the basic headers and the given bearer token.
pub open spec fn spec_oauth_request(
    url: Seq<char>,
    client_id: Seq<char>,
    user_token: Option<Seq<char>>,
) -> RequestView {
    RequestView {
        method: Method::Get,
        url: url,
        headers: basic_headers(client_id),
        bearer_token: user_token,
    }
}

/// The header pairs that carry the API key and the content type.
pub(crate) fn make_basic_headers(client_id: &str) -> (r: Vec<(String, String)>)
    ensures
        r@.map_values(|h: (String, String)| header_view(h)) == basic_headers(client_id@),
{
    let mut headers: Vec<(String, String)> = Vec::new();
    headers.push((String::from_str("x-api-key"), String::from_str(client_id)));
    headers.push((String::from_str("content-type"), String::from_str("application/json")));
    assert(headers@.map_values(|h: (String, String)| header_view(h)) =~= basic_headers(client_id@));
    headers
}

/// A GET request to `url` that carries the API key and, when a user token is
/// given, that token as bearer.
pub fn build_adobe_oauth_request(url: &str, client_id: &str, user_token: Option<&str>) -> (r: RequestPlan)
    ensures
        r@ == spec_oauth_request(
            url@,
            client_id@,
            match user_token {
                Some(t) => Some(t@),
                None => None,
            },
        ),
{
    let bearer_token = match user_token {
        Some(t) => Some(String::from_str(t)),
        None => None,
    };
    RequestPlan {
        method: Method::Get,
        url: String::from_str(url),
        headers: make_basic_headers(client_id),
        bearer_token,
    }
}

/// The request that checks whether the API is up; it carries no user token.
pub fn health_request(client_id: &str) -> (r: RequestPlan)
    ensures
        r@ == spec_oauth_request("http://lr.adobe.io/v2/health"@, client_id@, None),
{
    build_adobe_oauth_request("http://lr.adobe.io/v2/health", client_id, None)
}

} // verus!
