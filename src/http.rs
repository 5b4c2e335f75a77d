//! The plain request and response values that the library works on. The
//! transport layer fills a `Request` from the wire and sends a `Response`.
use vstd::prelude::*;

verus! {

/// One header as it came over the wire: its name in lower case, and its
/// value as raw bytes.
pub struct Header {
    pub name: String,
    pub value: Vec<u8>,
}

/// What the library reads of an incoming request. The body is read
/// separately, frame by frame (see `BodyReader`).
pub struct Request {
    pub method: String,
    pub path: String,
    pub query: Option<String>,
    pub headers: Vec<Header>,
}

/// A response to send: status code, headers in order, and body text.
pub struct Response {
    pub status: u16,
    pub headers: Vec<(String, String)>,
    pub body: String,
}

pub open spec fn header_views(h: Seq<(String, String)>) -> Seq<(Seq<char>, Seq<char>)> {
    h.map_values(|p: (String, String)| (p.0@, p.1@))
}

pub const STATUS_OK: u16 = 200;
pub const STATUS_SEE_OTHER: u16 = 303;
pub const STATUS_PERMANENT_REDIRECT: u16 = 308;
pub const STATUS_BAD_REQUEST: u16 = 400;
pub const STATUS_UNAUTHORIZED: u16 = 401;
pub const STATUS_FORBIDDEN: u16 = 403;
pub const STATUS_NOT_FOUND: u16 = 404;
pub const STATUS_METHOD_NOT_ALLOWED: u16 = 405;
pub const STATUS_CONFLICT: u16 = 409;
pub const STATUS_INTERNAL_SERVER_ERROR: u16 = 500;

impl Response {
    /// A 200 response carrying an HTML page.
    pub fn html(body: String) -> (r: Response)
        ensures
            r.status == STATUS_OK,
            r.body == body,
            header_views(r.headers@) == seq![("Content-Type"@, "text/html; charset=utf-8"@)],
    {
        let mut headers: Vec<(String, String)> = Vec::new();
        headers.push((String::from_str("Content-Type"), String::from_str("text/html; charset=utf-8")));
        proof {
            assert(header_views(headers@) =~= seq![("Content-Type"@, "text/html; charset=utf-8"@)]);
        }
        Response { status: STATUS_OK, headers, body }
    }

    /// Replaces the status code.
    pub fn set_status(self, status: u16) -> (r: Response)
        ensures
            r.status == status,
            r.headers == self.headers,
            r.body == self.body,
    {
        Response { status, headers: self.headers, body: self.body }
    }

    /// Appends a header.
    pub fn add_header(self, name: &str, value: String) -> (r: Response)
        ensures
            r.status == self.status,
            r.body == self.body,
            header_views(r.headers@) == header_views(self.headers@).push((name@, value@)),
    {
        let mut headers = self.headers;
        let ghost before = headers@;
        headers.push((String::from_str(name), value));
        proof {
            assert(header_views(headers@) =~= header_views(before).push((name@, value@)));
        }
        Response { status: self.status, headers, body: self.body }
    }

    /// A redirect of the given status to `location`, with an empty body.
    fn redirect(status: u16, location: String) -> (r: Response)
        ensures
            r.status == status,
            r.body@.len() == 0,
            header_views(r.headers@) == seq![("Location"@, location@)],
    {
        let mut headers: Vec<(String, String)> = Vec::new();
        let loc = location;
        headers.push((String::from_str("Location"), loc));
        proof {
            assert(header_views(headers@) =~= seq![("Location"@, loc@)]);
        }
        Response { status, headers, body: String::new() }
    }

    /// A permanent redirect (308) to `location`.
    pub fn permanent_redirect(location: String) -> (r: Response)
        ensures
            r.status == STATUS_PERMANENT_REDIRECT,
            r.body@.len() == 0,
            header_views(r.headers@) == seq![("Location"@, location@)],
    {
        Response::redirect(STATUS_PERMANENT_REDIRECT, location)
    }

    /// A "see other" redirect (303) to `location`, as sent after a form post.
    pub fn see_other(location: String) -> (r: Response)
        ensures
            r.status == STATUS_SEE_OTHER,
            r.body@.len() == 0,
            header_views(r.headers@) == seq![("Location"@, location@)],
    {
        Response::redirect(STATUS_SEE_OTHER, location)
    }
}

} // verus!
