use vstd::prelude::*;
use vstd::string::*;
use crate::error::ShellError;
use crate::text::same_text;

verus! {

/// Base URL of the backend used when no host is configured.
pub const DEFAULT_HOST: &'static str = "http://127.0.0.1:5173";

/// Name of the environment variable that configures the backend host.
pub const HOST_VARIABLE: &'static str = "CTXC_HOST";

/// The request method of a backend call.
#[derive(Debug, Clone, Copy, PartialEq, Eq, Structural)]
pub enum Method {
    Get,
    Post,
}

/// The JSON body `{"all": <all>}` that a backend call may carry.
#[derive(Debug, Clone, Copy, PartialEq, Eq, Structural)]
pub struct IngestPayload {
    pub all: bool,
}

/// A backend call ready to be performed: where, how, and with which body.
#[derive(Debug, Clone)]
pub struct Request {
    pub url: String,
    pub method: Method,
    pub body: Option<IngestPayload>,
}

/// A [`Request`] with its URL seen as a character sequence.
pub struct RequestView {
    pub url: Seq<char>,
    pub method: Method,
    pub body: Option<IngestPayload>,
}

impl View for Request {
    type V = RequestView;

    open spec fn view(&self) -> RequestView {
        RequestView { url: self.url@, method: self.method, body: self.body }
    }
}

/// The configured host as a sequence, if one was given.
pub open spec fn configured_view(configured: Option<&str>) -> Option<Seq<char>> {
    match configured {
        Some(h) => Some(h@),
        None => None,
    }
}

/// The host that is used: the configured one, or the default when it is unset or empty.
pub open spec fn host_or_default(configured: Option<Seq<char>>) -> Seq<char> {
    match configured {
        Some(h) => if h.len() > 0 { h } else { DEFAULT_HOST@ },
        None => DEFAULT_HOST@,
    }
}

/// `s` without any `/` at its end.
pub open spec fn trim_trailing_slashes(s: Seq<char>) -> Seq<char>
    decreases s.len(),
{
    if s.len() > 0 && s.last() == '/' {
        trim_trailing_slashes(s.drop_last())
    } else {
        s
    }
}

/// The URL of `path` on `host`.
pub open spec fn url_for(host: Seq<char>, path: Seq<char>) -> Seq<char> {
    trim_trailing_slashes(host) + path
}

/// The method named by `m`, if it is one of the two supported names.
pub open spec fn method_named(m: Seq<char>) -> Option<Method> {
    if m == "GET"@ {
        Some(Method::Get)
    } else if m == "POST"@ {
        Some(Method::Post)
    } else {
        None
    }
}

/// The body that goes out with a call: only a POST carries one.
pub open spec fn body_sent(method: Method, body: Option<IngestPayload>) -> Option<IngestPayload> {
    match method {
        Method::Post => body,
        Method::Get => None,
    }
}

/// The host to talk to, from the configured value (`None` when unset).
pub fn resolve_host(configured: Option<&str>) -> (r: String)
    ensures
        r@ == host_or_default(configured_view(configured)),
{
    match configured {
        Some(h) => {
            if h.unicode_len() > 0 {
                h.to_owned()
            } else {
                DEFAULT_HOST.to_owned()
            }
        },
        None => DEFAULT_HOST.to_owned(),
    }
}

/// Number of leading characters of `s` that remain once trailing slashes are cut.
fn trimmed_len(s: &str) -> (n: usize)
    ensures
        n <= s@.len(),
        s@.subrange(0, n as int) == trim_trailing_slashes(s@),
{
    let mut n = s.unicode_len();
    assert(s@.subrange(0, n as int) == s@);
    while n > 0 && s.get_char(n - 1) == '/'
        invariant
            n <= s@.len(),
            trim_trailing_slashes(s@.subrange(0, n as int)) == trim_trailing_slashes(s@),
        decreases n,
    {
        let ghost prefix = s@.subrange(0, n as int);
        assert(prefix.drop_last() == s@.subrange(0, n - 1));
        n = n - 1;
    }
    n
}

/// The URL of `path` on `host`: the host without trailing slashes, then the path.
pub fn backend_url(host: &str, path: &str) -> (r: String)
    ensures
        r@ == url_for(host@, path@),
{
    let n = trimmed_len(host);
    let base = host.substring_char(0, n);
    let mut url = base.to_owned();
    url.append(path);
    url
}

/// Reads a method name; only `GET` and `POST` are supported.
pub fn parse_method(m: &str) -> (r: Result<Method, ShellError>)
    ensures
        method_named(m@) matches Some(k) ==> r == Ok::<Method, ShellError>(k),
        method_named(m@) is None ==> (r matches Err(ShellError::UnsupportedMethod(name))
            && name@ == m@),
{
    if same_text(m, "GET") {
        Ok(Method::Get)
    } else if same_text(m, "POST") {
        Ok(Method::Post)
    } else {
        Err(ShellError::UnsupportedMethod(m.to_owned()))
    }
}

/// The call of `path` with `method` on the configured host; the body is kept for POST only.
pub fn build_request(configured: Option<&str>, path: &str, method: Method, body: Option<
    IngestPayload,
>) -> (r: Request)
    ensures
        r.url@ == url_for(host_or_default(configured_view(configured)), path@),
        r.method == method,
        r.body == body_sent(method, body),
{
    let host = resolve_host(configured);
    let url = backend_url(host.as_str(), path);
    let body = match method {
        Method::Post => body,
        Method::Get => None,
    };
    Request { url, method, body }
}

/// The call of `path` with the method named `method`; fails when that name is not supported.
pub fn prepare_request(configured: Option<&str>, path: &str, method: &str, body: Option<
    IngestPayload,
>) -> (r: Result<Request, ShellError>)
    ensures
        method_named(method@) matches Some(k) ==> (r matches Ok(req) && req.method == k
            && req.url@ == url_for(host_or_default(configured_view(configured)), path@)
            && req.body == body_sent(k, body)),
        method_named(method@) is None ==> (r matches Err(ShellError::UnsupportedMethod(name))
            && name@ == method@),
{
    match parse_method(method) {
        Ok(k) => Ok(build_request(configured, path, k, body)),
        Err(e) => Err(e),
    }
}

/// What a performed call amounts to: success, or a failure naming the URL and the cause.
pub fn request_outcome(url: &str, reply: Result<(), String>) -> (r: Result<(), ShellError>)
    ensures
        reply is Ok ==> r is Ok,
        reply matches Err(cause) ==> (r matches Err(ShellError::NetworkRequestFailed { url: u, cause: c })
            && u@ == url@ && c@ == cause@),
{
    match reply {
        Ok(()) => Ok(()),
        Err(cause) => Err(ShellError::NetworkRequestFailed { url: url.to_owned(), cause }),
    }
}

} // verus!
