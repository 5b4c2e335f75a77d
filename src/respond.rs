//! Turning any failure into a response. Internal failures all get one fixed
//! page; client failures get a page chosen by kind; a page that cannot be
//! rendered falls back to a fixed fragment.
use vstd::prelude::*;
use vstd::string::*;
use crate::error::{ClientError, ClientErrorModel, Error, ErrorModel};
use crate::http::{
    Response, header_views, STATUS_BAD_REQUEST, STATUS_CONFLICT, STATUS_FORBIDDEN,
    STATUS_INTERNAL_SERVER_ERROR, STATUS_METHOD_NOT_ALLOWED, STATUS_NOT_FOUND,
};

verus! {

pub open spec fn hex_digit(d: nat) -> char {
    "0123456789abcdef"@[d as int]
}

/// How serde_json writes one character inside a JSON string: `"` and `\`
/// escaped with a backslash, the control characters with a short escape
/// where JSON has one and as `\u00XX` otherwise, anything else as itself.
pub open spec fn json_escape(c: char) -> Seq<char> {
    if c == '"' {
        seq!['\\', '"']
    } else if c == '\\' {
        seq!['\\', '\\']
    } else if c == '\u{8}' {
        seq!['\\', 'b']
    } else if c == '\t' {
        seq!['\\', 't']
    } else if c == '\n' {
        seq!['\\', 'n']
    } else if c == '\u{c}' {
        seq!['\\', 'f']
    } else if c == '\r' {
        seq!['\\', 'r']
    } else if (c as u32) < 0x20 {
        seq!['\\', 'u', '0', '0', hex_digit((c as u32 / 16) as nat), hex_digit((c as u32 % 16) as nat)]
    } else {
        seq![c]
    }
}

/// The characters of `s`, each escaped as in a JSON string.
pub open spec fn json_escaped(s: Seq<char>) -> Seq<char>
    decreases s.len(),
{
    if s.len() == 0 {
        Seq::empty()
    } else {
        json_escaped(s.drop_last()) + json_escape(s.last())
    }
}

/// The JSON string literal that serde_json writes for `s`.
pub open spec fn json_string(s: Seq<char>) -> Seq<char> {
    seq!['"'] + json_escaped(s) + seq!['"']
}

/// Relies on `serde_json::to_string` on a `str`: the quoted and escaped
/// JSON string for `s`. Writing into its in-memory buffer does not fail.
#[verifier::external_body]
fn json_quote(s: &str) -> (r: String)
    ensures
        r@ == json_string(s@),
{
    match serde_json::to_string(s) {
        Ok(j) => j,
        Err(_) => String::new(),
    }
}

/// The JSON for a variant without data: its name as a string.
pub open spec fn json_unit(name: Seq<char>) -> Seq<char> {
    json_string(name)
}

/// The JSON for a variant with one value: `{"Name":"value"}`.
pub open spec fn json_newtype(name: Seq<char>, v: Seq<char>) -> Seq<char> {
    "{"@ + json_string(name) + ":"@ + json_string(v) + "}"@
}

/// A JSON object member `"key":"value"`.
pub open spec fn json_member(key: Seq<char>, v: Seq<char>) -> Seq<char> {
    json_string(key) + ":"@ + json_string(v)
}

/// The JSON that an externally tagged serialization gives a client error.
pub open spec fn client_error_json(e: ClientErrorModel) -> Seq<char> {
    match e {
        ClientErrorModel::InternalError => json_unit("InternalError"@),
        ClientErrorModel::PathNotFound(p) => json_newtype("PathNotFound"@, p),
        ClientErrorModel::MethodNotFound { method, path } => "{"@ + json_string("MethodNotFound"@)
            + ":{"@ + json_member("method"@, method) + ","@ + json_member("path"@, path) + "}}"@,
        ClientErrorModel::Forbidden => json_unit("Forbidden"@),
        ClientErrorModel::PathDataBeforeRoot(d) => json_newtype("PathDataBeforeRoot"@, d),
        ClientErrorModel::UnreadableHeader(m) => json_newtype("UnreadableHeader"@, m),
        ClientErrorModel::UnparseableCookie(c) => json_newtype("UnparseableCookie"@, c),
        ClientErrorModel::DuplicateCookies { name, value, old_value } => "{"@ + json_string(
            "DuplicateCookies"@,
        ) + ":{"@ + json_member("name"@, name) + ","@ + json_member("value"@, value) + ","@
            + json_member("old_value"@, old_value) + "}}"@,
        ClientErrorModel::InvalidContentLength(m) => json_newtype("InvalidContentLength"@, m),
        ClientErrorModel::InvalidContentType(m) => json_newtype("InvalidContentType"@, m),
        ClientErrorModel::InvalidJson(m) => json_newtype("InvalidJson"@, m),
        ClientErrorModel::InvalidUrlEncoding(m) => json_newtype("InvalidUrlEncoding"@, m),
        ClientErrorModel::InvalidIndexPath(m) => json_newtype("InvalidIndexPath"@, m),
        ClientErrorModel::AlreadyExists(m) => json_newtype("AlreadyExists"@, m),
        ClientErrorModel::InvalidData(m) => json_newtype("InvalidData"@, m),
        ClientErrorModel::UnknownOIDCProcess => json_unit("UnknownOIDCProcess"@),
        ClientErrorModel::OIDCGaveNoToken => json_unit("OIDCGaveNoToken"@),
        ClientErrorModel::OIDCGaveNoEmail => json_unit("OIDCGaveNoEmail"@),
        ClientErrorModel::UserNotFound(e) => json_newtype("UserNotFound"@, e),
    }
}

fn newtype_json(name: &str, v: &String) -> (r: String)
    ensures
        r@ == json_newtype(name@, v@),
{
    String::from_str("{").concat(json_quote(name).as_str()).concat(":").concat(
        json_quote(v.as_str()).as_str(),
    ).concat("}")
}

fn member_json(key: &str, v: &String) -> (r: String)
    ensures
        r@ == json_member(key@, v@),
{
    json_quote(key).concat(":").concat(json_quote(v.as_str()).as_str())
}

impl ClientError {
    /// This error as JSON, for diagnostic display.
    pub fn to_json(&self) -> (r: String)
        ensures
            r@ == client_error_json(self@),
    {
        match self {
            ClientError::InternalError => json_quote("InternalError"),
            ClientError::PathNotFound(p) => newtype_json("PathNotFound", p),
            ClientError::MethodNotFound { method, path } => String::from_str("{").concat(
                json_quote("MethodNotFound").as_str(),
            ).concat(":{").concat(member_json("method", method).as_str()).concat(",").concat(
                member_json("path", path).as_str(),
            ).concat("}}"),
            ClientError::Forbidden => json_quote("Forbidden"),
            ClientError::PathDataBeforeRoot(d) => newtype_json("PathDataBeforeRoot", d),
            ClientError::UnreadableHeader(m) => newtype_json("UnreadableHeader", m),
            ClientError::UnparseableCookie(c) => newtype_json("UnparseableCookie", c),
            ClientError::DuplicateCookies { name, value, old_value } => String::from_str(
                "{",
            ).concat(json_quote("DuplicateCookies").as_str()).concat(":{").concat(
                member_json("name", name).as_str(),
            ).concat(",").concat(member_json("value", value).as_str()).concat(",").concat(
                member_json("old_value", old_value).as_str(),
            ).concat("}}"),
            ClientError::InvalidContentLength(m) => newtype_json("InvalidContentLength", m),
            ClientError::InvalidContentType(m) => newtype_json("InvalidContentType", m),
            ClientError::InvalidJson(m) => newtype_json("InvalidJson", m),
            ClientError::InvalidUrlEncoding(m) => newtype_json("InvalidUrlEncoding", m),
            ClientError::InvalidIndexPath(m) => newtype_json("InvalidIndexPath", m),
            ClientError::AlreadyExists(m) => newtype_json("AlreadyExists", m),
            ClientError::InvalidData(m) => newtype_json("InvalidData", m),
            ClientError::UnknownOIDCProcess => json_quote("UnknownOIDCProcess"),
            ClientError::OIDCGaveNoToken => json_quote("OIDCGaveNoToken"),
            ClientError::OIDCGaveNoEmail => json_quote("OIDCGaveNoEmail"),
            ClientError::UserNotFound(e) => newtype_json("UserNotFound", e),
        }
    }
}

/// Which page template an error message is shown in: the page-wide error
/// banner, or the error slot beside a form's inputs.
#[derive(PartialEq, Eq, Structural, Clone, Copy, Debug)]
pub enum PageKind {
    Global,
    Input,
}

/// An error page to render: its status, its template and its message.
pub struct ErrorPage {
    pub status: u16,
    pub kind: PageKind,
    pub message: String,
}

pub open spec fn internal_message() -> Seq<char> {
    "Internal server error. Please try again in a few minutes."@
}

/// The status, template and message that a client error is shown with.
pub open spec fn client_page(e: ClientErrorModel) -> (u16, PageKind, Seq<char>) {
    match e {
        ClientErrorModel::InternalError => (STATUS_INTERNAL_SERVER_ERROR, PageKind::Global, internal_message()),
        ClientErrorModel::PathNotFound(p) => (STATUS_NOT_FOUND, PageKind::Global, "Path "@ + p + " not found."@),
        ClientErrorModel::MethodNotFound { method, path } => (
            STATUS_METHOD_NOT_ALLOWED,
            PageKind::Global,
            "Method "@ + method + " not valid for path "@ + path + "."@,
        ),
        ClientErrorModel::Forbidden => (STATUS_FORBIDDEN, PageKind::Global, "Operation forbidden!"@),
        ClientErrorModel::AlreadyExists(m) => (STATUS_CONFLICT, PageKind::Input, m),
        ClientErrorModel::UserNotFound(email) => (
            STATUS_FORBIDDEN,
            PageKind::Global,
            "No account exists for gmail "@ + email + ". Contact admins to create one."@,
        ),
        _ => (
            STATUS_BAD_REQUEST,
            PageKind::Global,
            "Bad request. Your browser is misbehaving. Error: "@ + client_error_json(e),
        ),
    }
}

/// The page any error is shown with: internal errors all share the
/// client page of `ClientError::InternalError`, whatever their cause.
pub open spec fn error_page_of(e: ErrorModel) -> (u16, PageKind, Seq<char>) {
    match e {
        ErrorModel::Internal(_) => client_page(ClientErrorModel::InternalError),
        ErrorModel::Client(c) => client_page(c),
    }
}

pub open spec fn page_model(p: ErrorPage) -> (u16, PageKind, Seq<char>) {
    (p.status, p.kind, p.message@)
}

/// The fragment sent when the error page itself cannot be rendered.
pub open spec fn fallback_fragment() -> Seq<char> {
    "<div id=\"global-error\" hx-swap-oob=true>\n  Server is on proverbial fire. Kindly give us a while to recover.\n<\\div>"@
}

impl ClientError {
    /// Chooses the status, template and message for this error.
    pub fn error_page(self) -> (r: ErrorPage)
        ensures
            page_model(r) == client_page(self@),
    {
        let json = self.to_json();
        match self {
            ClientError::InternalError => ErrorPage {
                status: STATUS_INTERNAL_SERVER_ERROR,
                kind: PageKind::Global,
                message: String::from_str("Internal server error. Please try again in a few minutes."),
            },
            ClientError::PathNotFound(p) => ErrorPage {
                status: STATUS_NOT_FOUND,
                kind: PageKind::Global,
                message: String::from_str("Path ").concat(p.as_str()).concat(" not found."),
            },
            ClientError::MethodNotFound { method, path } => ErrorPage {
                status: STATUS_METHOD_NOT_ALLOWED,
                kind: PageKind::Global,
                message: String::from_str("Method ").concat(method.as_str()).concat(
                    " not valid for path ",
                ).concat(path.as_str()).concat("."),
            },
            ClientError::Forbidden => ErrorPage {
                status: STATUS_FORBIDDEN,
                kind: PageKind::Global,
                message: String::from_str("Operation forbidden!"),
            },
            ClientError::AlreadyExists(m) => ErrorPage {
                status: STATUS_CONFLICT,
                kind: PageKind::Input,
                message: m,
            },
            ClientError::UserNotFound(email) => ErrorPage {
                status: STATUS_FORBIDDEN,
                kind: PageKind::Global,
                message: String::from_str("No account exists for gmail ").concat(email.as_str()).concat(
                    ". Contact admins to create one.",
                ),
            },
            _ => ErrorPage {
                status: STATUS_BAD_REQUEST,
                kind: PageKind::Global,
                message: String::from_str("Bad request. Your browser is misbehaving. Error: ").concat(
                    json.as_str(),
                ),
            },
        }
    }
}

impl Error {
    /// Chooses the page for any error. The cause of an internal error does
    /// not reach the page; the caller logs it first.
    pub fn error_page(self) -> (r: ErrorPage)
        ensures
            page_model(r) == error_page_of(self@),
    {
        match self {
            Error::InternalError(_) => ClientError::InternalError.error_page(),
            Error::ClientError(e) => e.error_page(),
        }
    }
}

impl ErrorPage {
    /// The response for this page, given what rendering it produced: the
    /// rendered HTML with the page's status, or, where rendering failed, the
    /// fixed fallback fragment with status 500. This step cannot fail.
    pub fn into_response(self, rendered: Option<String>) -> (r: Response)
        ensures
            match rendered {
                Some(html) => r.status == self.status && r.body == html,
                None => r.status == STATUS_INTERNAL_SERVER_ERROR && r.body@ == fallback_fragment(),
            },
            header_views(r.headers@) == seq![("Content-Type"@, "text/html; charset=utf-8"@)],
    {
        match rendered {
            Some(html) => Response::html(html).set_status(self.status),
            None => Response::html(
                String::from_str(
                    "<div id=\"global-error\" hx-swap-oob=true>\n  Server is on proverbial fire. Kindly give us a while to recover.\n<\\div>",
                ),
            ).set_status(STATUS_INTERNAL_SERVER_ERROR),
        }
    }
}

} // verus!
