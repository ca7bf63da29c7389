//! Requests to the API: where they go, with which method and headers.
//! Sending them is left to the caller.
use crate::error::Error;
use vstd::prelude::*;
use vstd::string::*;
use vstd::utf8::encode_utf8;

verus! {

/// The API's base URL.
pub const BASE_URL: &'static str = "https://api.stability.ai";

/// The version prefix of every path.
pub const V1_PATH: &'static str = "/v1";

/// The header that carries the API key.
pub const AUTHORIZATION_HEADER: &'static str = "authorization";

/// The host header's name.
pub const HOST: &'static str = "host";

/// The API's authority, which the host header names.
pub const AUTHORITY: &'static str = "api.stability.ai";

pub const DELETE: &'static str = "DELETE";

pub const GET: &'static str = "GET";

pub const POST: &'static str = "POST";

pub const ACCEPT: &'static str = "accept";

pub const APPLICATION_JSON: &'static str = "application/json";

pub const CONTENT_TYPE: &'static str = "Content-Type";

pub const IMAGE_PNG: &'static str = "image/png";

/// Whether http's `Uri` parser accepts the text.
pub uninterp spec fn uri_parses(s: Seq<char>) -> bool;

/// Whether http's `Method` parser accepts the text.
pub uninterp spec fn method_parses(s: Seq<char>) -> bool;

/// Whether http's `HeaderName` parser accepts the text.
pub uninterp spec fn header_name_parses(s: Seq<char>) -> bool;

/// Relies on hyper's `Uri` (from http) `FromStr`: whether the text is a
/// valid URI, which depends on the text alone.
#[verifier::external_body]
fn is_valid_uri(s: &str) -> (r: bool)
    ensures
        r == uri_parses(s@),
{
    s.parse::<hyper::Uri>().is_ok()
}

/// Relies on hyper's `Method` (from http) `FromStr`: whether the text is a
/// valid method, which depends on the text alone.
#[verifier::external_body]
fn is_valid_method(s: &str) -> (r: bool)
    ensures
        r == method_parses(s@),
{
    s.parse::<hyper::Method>().is_ok()
}

/// Relies on hyper's `HeaderName` (from http) `FromStr`: whether the text
/// is a valid header name, which depends on the text alone.
#[verifier::external_body]
fn is_valid_header_name(s: &str) -> (r: bool)
    ensures
        r == header_name_parses(s@),
{
    s.parse::<hyper::header::HeaderName>().is_ok()
}

/// Whether http's `HeaderValue` parser accepts the text: each of its
/// UTF-8 bytes is a tab, or at least 32 and not 127.
pub open spec fn header_value_ok(s: Seq<char>) -> bool {
    let b = encode_utf8(s);
    forall|i: int| 0 <= i < b.len() ==> (b[i] >= 32 && b[i] != 127) || b[i] == 9
}

/// Relies on hyper's `HeaderValue` (from http) `FromStr`, which accepts a
/// text exactly where each of its bytes is a tab, or at least 32 and not 127.
#[verifier::external_body]
fn is_valid_header_value(s: &str) -> (r: bool)
    ensures
        r == header_value_ok(s@),
{
    s.parse::<hyper::header::HeaderValue>().is_ok()
}

/// The names and values of headers.
pub open spec fn headers_view(hs: Seq<(String, String)>) -> Seq<(Seq<char>, Seq<char>)> {
    hs.map_values(|h: (String, String)| (h.0@, h.1@))
}

/// The URL of a path under the API's version prefix.
pub open spec fn url_of(path: Seq<char>) -> Seq<char> {
    BASE_URL@ + V1_PATH@ + path
}

/// A request's target, method and headers.
#[derive(Debug)]
pub struct Client {
    pub url: String,
    pub method: String,
    pub headers: Vec<(String, String)>,
}

impl Client {
    /// The address to connect to: the API's authority on the TLS port. A
    /// client made by `ClientBuilder::build` always targets that authority.
    pub fn format_address(&self) -> (r: String)
        ensures
            r@ == AUTHORITY@ + ":443"@,
    {
        let mut s = String::from_str(AUTHORITY);
        s.append(":443");
        s
    }
}

/// Collects a request's target, method and headers.
#[derive(Debug)]
pub struct ClientBuilder {
    pub url: Option<String>,
    pub method: Option<String>,
    pub headers: Vec<(String, String)>,
}

impl Default for ClientBuilder {
    /// A builder with no target or method, and the host header.
    fn default() -> (r: Self)
        ensures
            r.url is None && r.method is None,
            headers_view(r.headers@) == seq![(HOST@, AUTHORITY@)],
    {
        let mut headers: Vec<(String, String)> = Vec::new();
        headers.push((String::from_str(HOST), String::from_str(AUTHORITY)));
        let r = ClientBuilder { url: None, method: None, headers };
        assert(headers_view(r.headers@) =~= seq![(HOST@, AUTHORITY@)]);
        r
    }
}

impl ClientBuilder {
    /// A builder with the host header and the API key's authorization
    /// header; fails where the key is not a valid header value (the
    /// header's name is checked too, as `header` does).
    pub fn new(api_key: &str) -> (r: Result<Self, Error>)
        ensures
            r is Ok <==> header_name_parses(AUTHORIZATION_HEADER@) && header_value_ok(api_key@),
            r matches Ok(b) ==> b.url is None && b.method is None && headers_view(b.headers@)
                == seq![(HOST@, AUTHORITY@), (AUTHORIZATION_HEADER@, api_key@)],
            r matches Err(e) ==> if header_name_parses(AUTHORIZATION_HEADER@) {
                e matches Error::InvalidHeaderValue(v) && v@ == api_key@
            } else {
                e matches Error::InvalidHeaderName(n) && n@ == AUTHORIZATION_HEADER@
            },
    {
        let b = ClientBuilder::default();
        let r = b.header(AUTHORIZATION_HEADER, api_key);
        proof {
            if r is Ok {
                assert(headers_view(r->Ok_0.headers@) =~= seq![
                    (HOST@, AUTHORITY@),
                    (AUTHORIZATION_HEADER@, api_key@),
                ]);
            }
        }
        r
    }

    /// Sets the target to `path` under the API's base URL and version
    /// prefix; fails where that is not a valid URI.
    pub fn path(self, path: &str) -> (r: Result<Self, Error>)
        ensures
            r is Ok <==> uri_parses(url_of(path@)),
            r matches Ok(b) ==> b == (ClientBuilder { url: b.url, ..self }) && (b.url matches Some(
                u,
            ) && u@ == url_of(path@)),
            r matches Err(e) ==> e matches Error::InvalidUri(u) && u@ == url_of(path@),
    {
        let mut url = String::from_str(BASE_URL);
        url.append(V1_PATH);
        url.append(path);
        assert(url@ =~= url_of(path@));
        if !is_valid_uri(url.as_str()) {
            return Err(Error::InvalidUri(url));
        }
        let mut b = self;
        b.url = Some(url);
        Ok(b)
    }

    /// Sets the method; fails where it is not a valid method.
    pub fn method(self, method: &str) -> (r: Result<Self, Error>)
        ensures
            r is Ok <==> method_parses(method@),
            r matches Ok(b) ==> b == (ClientBuilder { method: b.method, ..self }) && (
            b.method matches Some(m) && m@ == method@),
            r matches Err(e) ==> e matches Error::InvalidMethod(m) && m@ == method@,
    {
        if !is_valid_method(method) {
            return Err(Error::InvalidMethod(String::from_str(method)));
        }
        let mut b = self;
        b.method = Some(String::from_str(method));
        Ok(b)
    }

    /// Adds a header after those already set; fails where the name or the
    /// value is not valid, the name checked first.
    pub fn header(self, name: &str, value: &str) -> (r: Result<Self, Error>)
        ensures
            r is Ok <==> header_name_parses(name@) && header_value_ok(value@),
            r matches Ok(b) ==> b.url == self.url && b.method == self.method && headers_view(
                b.headers@,
            ) == headers_view(self.headers@).push((name@, value@)),
            r matches Err(e) ==> if header_name_parses(name@) {
                e matches Error::InvalidHeaderValue(v) && v@ == value@
            } else {
                e matches Error::InvalidHeaderName(n) && n@ == name@
            },
    {
        if !is_valid_header_name(name) {
            return Err(Error::InvalidHeaderName(String::from_str(name)));
        }
        if !is_valid_header_value(value) {
            return Err(Error::InvalidHeaderValue(String::from_str(value)));
        }
        let mut b = self;
        b.headers.push((String::from_str(name), String::from_str(value)));
        assert(headers_view(b.headers@) =~= headers_view(self.headers@).push((name@, value@)));
        Ok(b)
    }

    /// Makes the client; fails where no target was set. The method is `GET`
    /// where none was set.
    pub fn build(self) -> (r: Result<Client, Error>)
        ensures
            r is Ok <==> self.url is Some,
            r matches Ok(c) ==> c.url == self.url->Some_0 && c.headers == self.headers && (
            match self.method {
                Some(m) => c.method == m,
                None => c.method@ == GET@,
            }),
            r matches Err(e) ==> e matches Error::ClientBuildError(m) && m@ == "url is not set"@,
    {
        let url = match self.url {
            Some(u) => u,
            None => {
                return Err(Error::ClientBuildError(String::from_str("url is not set")));
            },
        };
        let method = match self.method {
            Some(m) => m,
            None => String::from_str(GET),
        };
        Ok(Client { url, method, headers: self.headers })
    }
}

/// Whether a request to `path` with the API key and the headers `extra` can
/// be made: the URL is valid, and so is each header.
pub open spec fn request_ok(api_key: Seq<char>, path: Seq<char>, method: Seq<char>, extra: Seq<(Seq<char>, Seq<char>)>) -> bool {
    &&& header_name_parses(AUTHORIZATION_HEADER@)
    &&& header_value_ok(api_key)
    &&& method_parses(method)
    &&& uri_parses(url_of(path))
    &&& forall|i: int|
        0 <= i < extra.len() ==> header_name_parses(#[trigger] extra[i].0) && header_value_ok(
            extra[i].1,
        )
}

/// The client of a request to `path` with `method` that carries the API key,
/// an `Accept` header and a `Content-Type` header, in that order after the
/// host header.
pub fn request_client(
    api_key: &str,
    path: &str,
    method: &str,
    accept: &str,
    content_type: &str,
) -> (r: Result<Client, Error>)
    ensures
        r is Ok <==> request_ok(
            api_key@,
            path@,
            method@,
            seq![(ACCEPT@, accept@), (CONTENT_TYPE@, content_type@)],
        ),
        r matches Ok(c) ==> c.url@ == url_of(path@) && c.method@ == method@ && headers_view(
            c.headers@,
        ) == seq![
            (HOST@, AUTHORITY@),
            (AUTHORIZATION_HEADER@, api_key@),
            (ACCEPT@, accept@),
            (CONTENT_TYPE@, content_type@),
        ],
{
    let ghost extra = seq![(ACCEPT@, accept@), (CONTENT_TYPE@, content_type@)];
    assert(extra[0].0 == ACCEPT@ && extra[1].0 == CONTENT_TYPE@);
    let b = ClientBuilder::new(api_key)?;
    let b = b.method(method)?;
    let b = b.path(path)?;
    let b = b.header(ACCEPT, accept)?;
    let b = b.header(CONTENT_TYPE, content_type)?;
    let ghost hs = headers_view(b.headers@);
    assert(hs =~= seq![
        (HOST@, AUTHORITY@),
        (AUTHORIZATION_HEADER@, api_key@),
        (ACCEPT@, accept@),
        (CONTENT_TYPE@, content_type@),
    ]);
    b.build()
}

} // verus!
