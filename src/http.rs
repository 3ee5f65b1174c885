use vstd::prelude::*;

verus! {

/// Status code of a successful page.
pub const STATUS_OK: u16 = 200;

/// Status code of a redirect ("302 Found").
pub const STATUS_FOUND: u16 = 302;

/// Status code of a request whose required query parameter is absent or malformed.
pub const STATUS_BAD_REQUEST: u16 = 400;

/// Status code of a request that matches no route.
pub const STATUS_NOT_FOUND: u16 = 404;

/// The request method, as far as routing needs it.
#[derive(Clone, Copy, Debug, PartialEq, Eq, Structural)]
pub enum Method {
    Get,
    Head,
    Post,
    Put,
    Patch,
    Delete,
    Options,
    Other,
}

/// One incoming request: its method, its path, and the raw query string
/// (the text after `?`, empty when there is none).
#[derive(Debug)]
pub struct Request {
    pub method: Method,
    pub path: String,
    pub query: String,
}

pub struct RequestView {
    pub method: Method,
    pub path: Seq<char>,
    pub query: Seq<char>,
}

impl View for Request {
    type V = RequestView;

    open spec fn view(&self) -> RequestView {
        RequestView { method: self.method, path: self.path@, query: self.query@ }
    }
}

impl Request {
    pub fn new(method: Method, path: String, query: String) -> (r: Request)
        ensures
            r.method == method,
            r.path@ == path@,
            r.query@ == query@,
    {
        Request { method, path, query }
    }
}

/// The response the service sends: status, optional `Location` and
/// `Content-Type` headers, and the body.
#[derive(Debug)]
pub struct Response {
    pub status: u16,
    pub location: Option<String>,
    pub content_type: Option<String>,
    pub body: String,
}

pub struct ResponseView {
    pub status: u16,
    pub location: Option<Seq<char>>,
    pub content_type: Option<Seq<char>>,
    pub body: Seq<char>,
}

pub open spec fn opt_string_view(s: Option<String>) -> Option<Seq<char>> {
    match s {
        Some(v) => Some(v@),
        None => None,
    }
}

impl View for Response {
    type V = ResponseView;

    open spec fn view(&self) -> ResponseView {
        ResponseView {
            status: self.status,
            location: opt_string_view(self.location),
            content_type: opt_string_view(self.content_type),
            body: self.body@,
        }
    }
}

/// A redirect to `target`: status 302, `Location` set to `target`, no body.
pub open spec fn found_spec(target: Seq<char>) -> ResponseView {
    ResponseView {
        status: STATUS_FOUND,
        location: Some(target),
        content_type: None,
        body: Seq::empty(),
    }
}

/// An HTML page: status 200, `Content-Type: text/html`, the given body.
pub open spec fn html_page_spec(body: Seq<char>) -> ResponseView {
    ResponseView {
        status: STATUS_OK,
        location: None,
        content_type: Some("text/html"@),
        body,
    }
}

/// A bodiless response with the given status and no headers.
pub open spec fn empty_spec(status: u16) -> ResponseView {
    ResponseView { status, location: None, content_type: None, body: Seq::empty() }
}

/// Builds a 302 response that points at `target`.
pub fn found(target: String) -> (r: Response)
    ensures
        r@ == found_spec(target@),
{
    Response { status: STATUS_FOUND, location: Some(target), content_type: None, body: String::new() }
}

/// Builds a 200 HTML response around `body`.
pub fn html_page(body: &str) -> (r: Response)
    ensures
        r@ == html_page_spec(body@),
{
    Response {
        status: STATUS_OK,
        location: None,
        content_type: Some("text/html".to_owned()),
        body: body.to_owned(),
    }
}

/// Builds a response with the given status, no headers and no body.
pub fn empty_response(status: u16) -> (r: Response)
    ensures
        r@ == empty_spec(status),
{
    Response { status, location: None, content_type: None, body: String::new() }
}

/// Why a request gets no regular response.
#[derive(Clone, Copy, Debug, PartialEq, Eq, Structural)]
pub enum RequestError {
    /// A required query parameter is missing or malformed.
    BadRequest,
    /// No route matches the request.
    NotFound,
}

pub open spec fn error_status_spec(e: RequestError) -> u16 {
    match e {
        RequestError::BadRequest => STATUS_BAD_REQUEST,
        RequestError::NotFound => STATUS_NOT_FOUND,
    }
}

impl RequestError {
    /// The HTTP status that answers this error.
    pub fn status(&self) -> (r: u16)
        ensures
            r == error_status_spec(*self),
    {
        match self {
            RequestError::BadRequest => STATUS_BAD_REQUEST,
            RequestError::NotFound => STATUS_NOT_FOUND,
        }
    }

    /// The bodiless response that answers this error.
    pub fn to_response(&self) -> (r: Response)
        ensures
            r@ == empty_spec(error_status_spec(*self)),
    {
        empty_response(self.status())
    }
}

} // verus!
