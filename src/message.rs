use vstd::prelude::*;
use vstd::string::*;

verus! {

/// 200 OK: the status of a fresh response.
pub const OK: u16 = 200;
/// 400 Bad Request: the request or a body built from it is malformed.
pub const BAD_REQUEST: u16 = 400;
/// 404 Not Found: nothing in the chain answered the request.
pub const NOT_FOUND: u16 = 404;
/// 408 Request Timeout: a downstream chain did not settle in time.
pub const REQUEST_TIMEOUT: u16 = 408;
/// 500 Internal Server Error.
pub const INTERNAL_SERVER_ERROR: u16 = 500;
/// 503 Service Unavailable: the worker pool is saturated.
pub const SERVICE_UNAVAILABLE: u16 = 503;

/// A request target, split into the parts that a pipeline reads.
#[derive(Clone, Debug, PartialEq, Eq)]
pub struct Uri {
    pub scheme: Option<String>,
    pub authority: Option<String>,
    pub path: String,
    pub query: Option<String>,
}

impl Uri {
    /// A relative target with the given path and no query.
    pub fn from_path(path: &str) -> (r: Uri)
        ensures
            r.scheme is None,
            r.authority is None,
            r.path@ == path@,
            r.query is None,
    {
        Uri { scheme: None, authority: None, path: String::from_str(path), query: None }
    }

    /// An absolute target: scheme, authority, path and an optional query.
    pub fn absolute(scheme: &str, authority: &str, path: &str, query: Option<&str>) -> (r: Uri)
        ensures
            r.scheme matches Some(s) && s@ == scheme@,
            r.authority matches Some(a) && a@ == authority@,
            r.path@ == path@,
            match query {
                Some(q) => r.query matches Some(t) && t@ == q@,
                None => r.query is None,
            },
    {
        let query = match query {
            Some(q) => Some(String::from_str(q)),
            None => None,
        };
        Uri {
            scheme: Some(String::from_str(scheme)),
            authority: Some(String::from_str(authority)),
            path: String::from_str(path),
            query,
        }
    }
}

/// An inbound request: method, target, headers and the body read in full.
#[derive(Clone, Debug, PartialEq, Eq)]
pub struct Request {
    pub method: String,
    pub uri: Uri,
    pub headers: Vec<(String, String)>,
    pub body: String,
}

impl Request {
    /// A request with the given method and target, no headers and an empty body.
    pub fn new(method: &str, uri: Uri) -> (r: Request)
        ensures
            r.method@ == method@,
            r.uri == uri,
            r.headers@.len() == 0,
            r.body@.len() == 0,
    {
        Request { method: String::from_str(method), uri, headers: Vec::new(), body: String::new() }
    }

    /// The path of the request's target.
    pub fn path(&self) -> (r: &str)
        ensures
            r@ == self.uri.path@,
    {
        self.uri.path.as_str()
    }
}

/// A response in progress: status, headers in insertion order, and body.
#[derive(Clone, Debug, PartialEq, Eq)]
pub struct Response {
    pub status: u16,
    pub headers: Vec<(String, String)>,
    pub body: String,
}

impl Response {
    /// A fresh response: 200, no headers, empty body.
    pub fn new() -> (r: Response)
        ensures
            r.status == OK,
            r.headers@.len() == 0,
            r.body@.len() == 0,
    {
        Response { status: OK, headers: Vec::new(), body: String::new() }
    }

    /// A response with the given status, no headers and an empty body.
    pub fn with_status(code: u16) -> (r: Response)
        ensures
            r.status == code,
            r.headers@.len() == 0,
            r.body@.len() == 0,
    {
        Response { status: code, headers: Vec::new(), body: String::new() }
    }

    /// Sets the status.
    pub fn status(&mut self, code: u16)
        ensures
            final(self).status == code,
            final(self).headers == old(self).headers,
            final(self).body == old(self).body,
    {
        self.status = code;
    }

    /// Appends a header.
    pub fn header(&mut self, name: &str, value: &str)
        ensures
            final(self).status == old(self).status,
            final(self).body == old(self).body,
            final(self).headers@.len() == old(self).headers@.len() + 1,
            final(self).headers@.drop_last() == old(self).headers@,
            final(self).headers@.last().0@ == name@,
            final(self).headers@.last().1@ == value@,
    {
        self.headers.push((String::from_str(name), String::from_str(value)));
    }

    /// The response with its body replaced.
    pub fn body(self, body: &str) -> (r: Response)
        ensures
            r.status == self.status,
            r.headers == self.headers,
            r.body@ == body@,
    {
        Response { status: self.status, headers: self.headers, body: String::from_str(body) }
    }

    /// The response with a plain-text body: a `content-type: text/plain`
    /// header is appended and the body replaced.
    pub fn text(self, body: &str) -> (r: Response)
        ensures
            r.status == self.status,
            r.headers@.len() == self.headers@.len() + 1,
            r.headers@.drop_last() == self.headers@,
            r.headers@.last().0@ == "content-type"@,
            r.headers@.last().1@ == "text/plain"@,
            r.body@ == body@,
    {
        let mut res = self;
        res.header("content-type", "text/plain");
        res.body(body)
    }
}

} // verus!
