//! The client: its configuration, URL resolution, request preparation and
//! the response it hands back.

use std::collections::HashMap;
use std::time::Duration;

use vstd::prelude::*;
use vstd::string::*;
use vstd::utf8::valid_utf8;

use reqwest::Client as ReqwestClient;
use reqwest::ClientBuilder as ReqwestClientBuilder;
use reqwest::Error as ReqwestError;
use serde::de::DeserializeOwned;
use serde_json::Error as JsonError;

use crate::error::Error;
use crate::method::Method;

verus! {

/// Configuration options for the [`Client`].
#[derive(Clone)]
pub struct Options {
    /// The base URL for all requests.
    pub base_url: String,
    /// Optional content type header to use (e.g., `"application/json"`).
    pub content_type: Option<String>,
    /// Optional request timeout duration. Defaults to 30 seconds.
    pub timeout: Option<Duration>,
}

/// An HTTP client that wraps [`reqwest::Client`] and provides a simplified
/// interface.
pub struct Client {
    base_url: String,
    content_type: String,
    inner: ReqwestClient,
}

/// The content type a client sends when a request names none of its own.
pub open spec fn default_content_type(configured: Option<String>) -> Seq<char> {
    match configured {
        Some(c) => c@,
        None => "application/json"@,
    }
}

/// A URL that starts with `http://` or `https://`, and so is used as it is.
pub open spec fn is_absolute_url(url: Seq<char>) -> bool {
    "http://"@.is_prefix_of(url) || "https://"@.is_prefix_of(url)
}

/// The URL a request goes to: absolute URLs as they are, any other URL
/// appended to the client's base URL.
pub open spec fn resolve_url(base_url: Seq<char>, url: Seq<char>) -> Seq<char> {
    if is_absolute_url(url) {
        url
    } else {
        base_url + url
    }
}

/// The `Duration` that `Duration::from_secs(secs)` returns.
pub uninterp spec fn seconds(secs: u64) -> Duration;

/// `Duration::from_secs`. Trusted to return the value that `seconds` names
/// for its argument.
#[verifier::external_body]
fn duration_from_secs(secs: u64) -> (r: Duration)
    ensures
        r == seconds(secs),
{
    Duration::from_secs(secs)
}

/// The total request timeout a `reqwest::ClientBuilder` is configured with
/// (its `config.timeout`).
pub uninterp spec fn builder_total_timeout(builder: ReqwestClientBuilder) -> Option<Duration>;

/// The total request timeout a `reqwest::Client` applies to every request,
/// from connecting until the response body has finished.
pub uninterp spec fn client_total_timeout(client: ReqwestClient) -> Option<Duration>;

/// `reqwest::Client::builder`: a builder whose configuration has no total
/// timeout (the source starts `config.timeout` at `None`).
#[verifier::external_body]
fn client_builder() -> (r: ReqwestClientBuilder)
    ensures
        builder_total_timeout(r) is None,
{
    ReqwestClient::builder()
}

/// `reqwest::ClientBuilder::timeout`: the builder with its total timeout set
/// to `timeout` (the source sets `config.timeout = Some(timeout)`).
#[verifier::external_body]
fn builder_timeout(builder: ReqwestClientBuilder, timeout: Duration) -> (r: ReqwestClientBuilder)
    ensures
        builder_total_timeout(r) == Some(timeout),
{
    builder.timeout(timeout)
}

/// `reqwest::ClientBuilder::build`. Whether it succeeds depends on the
/// machine (the TLS backend must initialise), so success is not claimed; a
/// client it builds applies the builder's total timeout (the source passes
/// `config.timeout` to the client's `total_timeout`).
#[verifier::external_body]
fn builder_build(builder: ReqwestClientBuilder) -> (r: Result<ReqwestClient, ReqwestError>)
    ensures
        r matches Ok(c) ==> client_total_timeout(c) == builder_total_timeout(builder),
{
    builder.build()
}

/// The timeout a client is built with: the configured one, or 30 seconds.
fn request_timeout(timeout: Option<Duration>) -> (r: Duration)
    ensures
        r == match timeout {
            Some(t) => t,
            None => seconds(30),
        },
{
    match timeout {
        Some(t) => t,
        None => duration_from_secs(30),
    }
}

/// Whether `s` begins with `prefix`.
fn starts_with(s: &str, prefix: &str) -> (r: bool)
    ensures
        r == prefix@.is_prefix_of(s@),
{
    let n = prefix.unicode_len();
    let m = s.unicode_len();
    if n > m {
        return false;
    }
    let mut i: usize = 0;
    while i < n
        invariant
            n == prefix@.len(),
            m == s@.len(),
            n <= m,
            i <= n,
            forall|j: int| 0 <= j < i ==> prefix@[j] == s@[j],
        decreases n - i,
    {
        if prefix.get_char(i) != s.get_char(i) {
            return false;
        }
        i = i + 1;
    }
    true
}

/// What is sent for one request: everything `send_request` hands to the
/// HTTP layer, computed from the request, the client and the serialized body.
pub struct RequestPlan {
    /// The method to send with.
    pub method: Method,
    /// The full URL to send to.
    pub url: String,
    /// The `Content-Type` header, set before the request's own headers.
    pub content_type: String,
    /// The request's own headers, added after `Content-Type`.
    pub headers: Option<HashMap<String, String>>,
    /// The body, already serialized.
    pub body: Option<Vec<u8>>,
}

impl Client {
    /// The base URL that relative request URLs are appended to.
    pub closed spec fn spec_base_url(&self) -> Seq<char> {
        self.base_url@
    }

    /// The content type sent when a request does not override it.
    pub closed spec fn spec_content_type(&self) -> Seq<char> {
        self.content_type@
    }

    /// The underlying HTTP client.
    pub closed spec fn spec_inner(&self) -> ReqwestClient {
        self.inner
    }

    /// Creates a new client from the given [`Options`]: the base URL is kept,
    /// the content type defaults to `application/json` and the timeout to 30
    /// seconds. Fails with `Error::HttpClient` when the HTTP layer cannot be
    /// initialised.
    pub fn new(opts: Options) -> (r: Result<Client, Error>)
        ensures
            match r {
                Ok(c) => {
                    &&& c.spec_base_url() == opts.base_url@
                    &&& c.spec_content_type() == default_content_type(opts.content_type)
                    &&& client_total_timeout(c.spec_inner()) == Some(
                        match opts.timeout {
                            Some(t) => t,
                            None => seconds(30),
                        },
                    )
                },
                Err(e) => e is HttpClient,
            },
    {
        let Options { base_url, content_type, timeout } = opts;
        let builder = builder_timeout(client_builder(), request_timeout(timeout));
        let inner = match builder_build(builder) {
            Ok(c) => c,
            Err(e) => return Err(Error::HttpClient(e)),
        };
        let content_type = match content_type {
            Some(c) => c,
            None => "application/json".to_owned(),
        };
        Ok(Client { base_url, content_type, inner })
    }

    /// The base URL that relative request URLs are appended to.
    pub fn base_url(&self) -> (r: &str)
        ensures
            r@ == self.spec_base_url(),
    {
        self.base_url.as_str()
    }

    /// The content type sent when a request does not override it.
    pub fn content_type(&self) -> (r: &str)
        ensures
            r@ == self.spec_content_type(),
    {
        self.content_type.as_str()
    }

    /// The underlying HTTP client, which sends prepared requests.
    pub fn inner(&self) -> (r: &ReqwestClient)
        ensures
            *r == self.spec_inner(),
    {
        &self.inner
    }

    /// The URL a request for `url` goes to: `url` itself when it starts with
    /// `http://` or `https://`, the base URL followed by `url` otherwise.
    pub fn build_url(&self, url: &str) -> (r: String)
        ensures
            r@ == resolve_url(self.spec_base_url(), url@),
            ("http://"@.is_prefix_of(url@) || "https://"@.is_prefix_of(url@)) ==> r@ == url@,
            !("http://"@.is_prefix_of(url@) || "https://"@.is_prefix_of(url@)) ==> r@ == self.spec_base_url() + url@,
    {
        proof {
            reveal_strlit("http://");
            reveal_strlit("https://");
        }
        if starts_with(url, "http://") || starts_with(url, "https://") {
            return url.to_owned();
        }
        let mut r = self.base_url.clone();
        r.append(url);
        r
    }

    /// Everything that `send_request` sends for `request` with the given
    /// serialized body: the request's method, its resolved URL, its own
    /// content type or else the client's, its headers and the body.
    pub fn prepare_request(&self, request: Request, body: Option<Vec<u8>>) -> (p: RequestPlan)
        ensures
            p.method == request.method,
            p.url@ == resolve_url(self.spec_base_url(), request.url@),
            p.content_type@ == match request.content_type {
                Some(c) => c@,
                None => self.spec_content_type(),
            },
            p.headers == request.headers,
            p.body == body,
    {
        let Request { url, method, content_type, headers } = request;
        let url = self.build_url(url.as_str());
        let content_type = match content_type {
            Some(c) => c,
            None => self.content_type.clone(),
        };
        RequestPlan { method, url, content_type, headers, body }
    }
}

/// A URL that starts with `http://` or `https://` resolves to itself. Any
/// other URL resolves to the base URL, unchanged and whole, followed by the
/// URL: the result is exactly as long as the two together, starts with the
/// base URL and ends with the URL.
pub proof fn lemma_resolve_url_parts(base_url: Seq<char>, url: Seq<char>)
    ensures
        ("http://"@.is_prefix_of(url) || "https://"@.is_prefix_of(url)) ==> resolve_url(base_url, url) == url,
        !("http://"@.is_prefix_of(url) || "https://"@.is_prefix_of(url)) ==> {
            let r = resolve_url(base_url, url);
            &&& r.len() == base_url.len() + url.len()
            &&& r.subrange(0, base_url.len() as int) == base_url
            &&& r.subrange(base_url.len() as int, r.len() as int) == url
        },
{
    if !("http://"@.is_prefix_of(url) || "https://"@.is_prefix_of(url)) {
        let r = resolve_url(base_url, url);
        assert(r.subrange(0, base_url.len() as int) =~= base_url);
        assert(r.subrange(base_url.len() as int, r.len() as int) =~= url);
    }
}

/// Resolving a URL a second time changes nothing, provided the base URL is
/// itself absolute.
pub proof fn lemma_resolve_url_idempotent(base_url: Seq<char>, url: Seq<char>)
    requires
        is_absolute_url(base_url),
    ensures
        resolve_url(base_url, resolve_url(base_url, url)) == resolve_url(base_url, url),
{
    if !is_absolute_url(url) {
        let r = base_url + url;
        if "http://"@.is_prefix_of(base_url) {
            assert(r.subrange(0, "http://"@.len() as int) =~= base_url.subrange(0, "http://"@.len() as int));
        } else {
            assert(r.subrange(0, "https://"@.len() as int) =~= base_url.subrange(0, "https://"@.len() as int));
        }
    }
}

/// Represents an HTTP request to be sent by the [`Client`].
#[derive(Debug)]
pub struct Request {
    /// The full or relative URL for the request.
    pub url: String,
    /// The HTTP method to use (GET, POST, etc.).
    pub method: Method,
    /// Optional override for the content type header.
    pub content_type: Option<String>,
    /// Optional HTTP headers to include in the request.
    pub headers: Option<HashMap<String, String>>,
}

/// Represents an HTTP response returned by the [`Client`].
#[derive(Debug, Clone)]
pub struct Response {
    /// The raw response body.
    pub body: Vec<u8>,
    /// The response headers as raw bytes.
    pub headers: HashMap<String, Vec<u8>>,
    /// The HTTP status code.
    pub status_code: u16,
    /// The total elapsed request time in milliseconds.
    pub time: i64,
}

/// `std::str::from_utf8`, with its error dropped. Trusted to succeed exactly
/// on valid UTF-8 and to return a string whose bytes are the given ones.
#[verifier::external_body]
fn str_from_utf8(bytes: &[u8]) -> (r: Option<&str>)
    ensures
        r is Some <==> valid_utf8(bytes@),
        r matches Some(s) ==> s.spec_bytes() == bytes@,
{
    std::str::from_utf8(bytes).ok()
}

/// `serde_json::from_slice`. What it parses depends on `T`'s `Deserialize`
/// impl, so nothing is claimed of the result.
#[verifier::external_body]
fn json_from_slice<T: DeserializeOwned>(bytes: &[u8]) -> Result<T, JsonError> {
    serde_json::from_slice(bytes)
}

/// `HashMap::get` on a map keyed by `String`, looked up with a `&str`. std's
/// `String` hashes and compares as the `str` it holds, so the lookup finds the
/// key that holds the same text as `name`, if there is one; the map holds at
/// most one such key, so every key with that text maps to the value found.
#[verifier::external_body]
fn header_value<'a>(headers: &'a HashMap<String, Vec<u8>>, name: &str) -> (r: Option<&'a Vec<u8>>)
    ensures
        match r {
            Some(v) => {
                &&& exists|k: String| #[trigger] headers@.contains_key(k) && k@ == name@
                &&& forall|k: String| #[trigger] headers@.contains_key(k) && k@ == name@ ==> headers@[k] == *v
            },
            None => forall|k: String| #[trigger] headers@.contains_key(k) ==> k@ != name@,
        },
{
    headers.get(name)
}

impl Response {
    /// The body parsed as JSON into a `T`; a body that does not parse as a
    /// `T` is refused with `Error::Serialization`.
    pub fn deserialize<T: DeserializeOwned>(&self) -> (r: Result<T, Error>)
        ensures
            r matches Err(e) ==> e is Serialization,
    {
        match json_from_slice(self.body.as_slice()) {
            Ok(v) => Ok(v),
            Err(e) => Err(Error::Serialization(e)),
        }
    }

    /// Whether the response carries a body.
    pub fn has_body(&self) -> (r: bool)
        ensures
            r == (self.body@.len() > 0),
    {
        !self.body.is_empty()
    }

    /// The value of header `name` as text, when the response has a header of
    /// exactly that name and its value is valid UTF-8; `None` otherwise.
    pub fn get_utf8_header(&self, name: &str) -> (r: Option<&str>)
        ensures
            match r {
                Some(s) => exists|k: String|
                    #[trigger] self.headers@.contains_key(k) && k@ == name@ && valid_utf8(
                        self.headers@[k]@,
                    ) && s.spec_bytes() == self.headers@[k]@,
                None => forall|k: String|
                    #[trigger] self.headers@.contains_key(k) && k@ == name@ ==> !valid_utf8(
                        self.headers@[k]@,
                    ),
            },
    {
        match header_value(&self.headers, name) {
            Some(v) => str_from_utf8(v.as_slice()),
            None => None,
        }
    }
}

} // verus!
