//! The error taxonomy: failures the operator must look at (internal) and
//! failures caused by the client, and how each becomes a response.
use vstd::prelude::*;
use vstd::string::*;
use crate::http::Request;
use crate::text::{decimal, decimal_string};

verus! {

/// A failure of the server or of a service it depends on. Each variant
/// carries the collaborator's own description of what went wrong, for the
/// operator's log; none of it is ever shown to the client.
pub enum InternalError {
    Connection(String),
    InvalidHeader(String),
    Db(String),
    OIDCRequestError(String),
    TamperedOIDCLogin(String),
    RenderingError(String),
}

/// A failure caused by the client, shown to the client.
pub enum ClientError {
    InternalError,
    // Routing errors
    PathNotFound(String),
    MethodNotFound { method: String, path: String },
    Forbidden,
    // Parsing errors
    PathDataBeforeRoot(String),
    UnreadableHeader(String),
    UnparseableCookie(String),
    DuplicateCookies { name: String, value: String, old_value: String },
    InvalidContentLength(String),
    InvalidContentType(String),
    InvalidJson(String),
    InvalidUrlEncoding(String),
    InvalidIndexPath(String),
    // Request processing errors
    AlreadyExists(String),
    InvalidData(String),
    // Login errors the user did not cause on purpose
    UnknownOIDCProcess,
    OIDCGaveNoToken,
    OIDCGaveNoEmail,
    UserNotFound(String),
}

/// Either kind of failure: what every fallible operation returns.
pub enum Error {
    InternalError(InternalError),
    ClientError(ClientError),
}

/// The mathematical value of a `ClientError`: the same variants over
/// character sequences.
pub enum ClientErrorModel {
    InternalError,
    PathNotFound(Seq<char>),
    MethodNotFound { method: Seq<char>, path: Seq<char> },
    Forbidden,
    PathDataBeforeRoot(Seq<char>),
    UnreadableHeader(Seq<char>),
    UnparseableCookie(Seq<char>),
    DuplicateCookies { name: Seq<char>, value: Seq<char>, old_value: Seq<char> },
    InvalidContentLength(Seq<char>),
    InvalidContentType(Seq<char>),
    InvalidJson(Seq<char>),
    InvalidUrlEncoding(Seq<char>),
    InvalidIndexPath(Seq<char>),
    AlreadyExists(Seq<char>),
    InvalidData(Seq<char>),
    UnknownOIDCProcess,
    OIDCGaveNoToken,
    OIDCGaveNoEmail,
    UserNotFound(Seq<char>),
}

/// The mathematical value of an `InternalError`.
pub enum InternalErrorModel {
    Connection(Seq<char>),
    InvalidHeader(Seq<char>),
    Db(Seq<char>),
    OIDCRequestError(Seq<char>),
    TamperedOIDCLogin(Seq<char>),
    RenderingError(Seq<char>),
}

/// The mathematical value of an `Error`.
pub enum ErrorModel {
    Internal(InternalErrorModel),
    Client(ClientErrorModel),
}

impl View for ClientError {
    type V = ClientErrorModel;

    open spec fn view(&self) -> ClientErrorModel {
        match self {
            ClientError::InternalError => ClientErrorModel::InternalError,
            ClientError::PathNotFound(p) => ClientErrorModel::PathNotFound(p@),
            ClientError::MethodNotFound { method, path } => ClientErrorModel::MethodNotFound {
                method: method@,
                path: path@,
            },
            ClientError::Forbidden => ClientErrorModel::Forbidden,
            ClientError::PathDataBeforeRoot(d) => ClientErrorModel::PathDataBeforeRoot(d@),
            ClientError::UnreadableHeader(m) => ClientErrorModel::UnreadableHeader(m@),
            ClientError::UnparseableCookie(c) => ClientErrorModel::UnparseableCookie(c@),
            ClientError::DuplicateCookies { name, value, old_value } =>
                ClientErrorModel::DuplicateCookies {
                name: name@,
                value: value@,
                old_value: old_value@,
            },
            ClientError::InvalidContentLength(m) => ClientErrorModel::InvalidContentLength(m@),
            ClientError::InvalidContentType(m) => ClientErrorModel::InvalidContentType(m@),
            ClientError::InvalidJson(m) => ClientErrorModel::InvalidJson(m@),
            ClientError::InvalidUrlEncoding(m) => ClientErrorModel::InvalidUrlEncoding(m@),
            ClientError::InvalidIndexPath(m) => ClientErrorModel::InvalidIndexPath(m@),
            ClientError::AlreadyExists(m) => ClientErrorModel::AlreadyExists(m@),
            ClientError::InvalidData(m) => ClientErrorModel::InvalidData(m@),
            ClientError::UnknownOIDCProcess => ClientErrorModel::UnknownOIDCProcess,
            ClientError::OIDCGaveNoToken => ClientErrorModel::OIDCGaveNoToken,
            ClientError::OIDCGaveNoEmail => ClientErrorModel::OIDCGaveNoEmail,
            ClientError::UserNotFound(e) => ClientErrorModel::UserNotFound(e@),
        }
    }
}

impl View for InternalError {
    type V = InternalErrorModel;

    open spec fn view(&self) -> InternalErrorModel {
        match self {
            InternalError::Connection(d) => InternalErrorModel::Connection(d@),
            InternalError::InvalidHeader(d) => InternalErrorModel::InvalidHeader(d@),
            InternalError::Db(d) => InternalErrorModel::Db(d@),
            InternalError::OIDCRequestError(d) => InternalErrorModel::OIDCRequestError(d@),
            InternalError::TamperedOIDCLogin(d) => InternalErrorModel::TamperedOIDCLogin(d@),
            InternalError::RenderingError(d) => InternalErrorModel::RenderingError(d@),
        }
    }
}

impl View for Error {
    type V = ErrorModel;

    open spec fn view(&self) -> ErrorModel {
        match self {
            Error::InternalError(e) => ErrorModel::Internal(e@),
            Error::ClientError(e) => ErrorModel::Client(e@),
        }
    }
}

pub open spec fn client(e: ClientErrorModel) -> ErrorModel {
    ErrorModel::Client(e)
}

/// What `ToStrError` displays: a header value held bytes that are not
/// visible ASCII.
pub open spec fn unreadable_header_message(header: Seq<char>) -> Seq<char> {
    "Error reading header "@ + header + ": failed to convert header to a str"@
}

pub open spec fn too_large_message(parsed: nat, max: nat) -> Seq<char> {
    "Too large. Maximum allowed is "@ + decimal(max) + ", received "@ + decimal(parsed)
}

pub open spec fn mismatch_message(given: nat, promised: nat) -> Seq<char> {
    "Mismatch. Header is "@ + decimal(promised) + ", received "@ + (if given > promised {
        " at least"@
    } else {
        ""@
    }) + " "@ + decimal(given)
}

pub open spec fn content_type_message(parsed: Seq<char>, expected: Seq<char>) -> Seq<char> {
    "Expected "@ + parsed + ", received "@ + expected
}

// Utility constructors
impl Error {
    pub fn path_data_before_root(data: String) -> (r: Error)
        ensures
            r@ == client(ClientErrorModel::PathDataBeforeRoot(data@)),
    {
        Error::ClientError(ClientError::PathDataBeforeRoot(data))
    }

    pub fn path_not_found(req: &Request) -> (r: Error)
        ensures
            r@ == client(ClientErrorModel::PathNotFound(req.path@)),
    {
        Error::ClientError(ClientError::PathNotFound(req.path.clone()))
    }

    pub fn method_not_found(req: &Request) -> (r: Error)
        ensures
            r@ == client(ClientErrorModel::MethodNotFound { method: req.method@, path: req.path@ }),
    {
        Error::ClientError(
            ClientError::MethodNotFound { method: req.method.clone(), path: req.path.clone() },
        )
    }

    pub fn forbidden() -> (r: Error)
        ensures
            r@ == client(ClientErrorModel::Forbidden),
    {
        Error::ClientError(ClientError::Forbidden)
    }

    /// The value of the named header is not visible ASCII text.
    pub fn unreadable_header(header: &str) -> (r: Error)
        ensures
            r@ == client(ClientErrorModel::UnreadableHeader(unreadable_header_message(header@))),
    {
        let m = String::from_str("Error reading header ").concat(header).concat(
            ": failed to convert header to a str",
        );
        Error::ClientError(ClientError::UnreadableHeader(m))
    }

    pub fn unparseable_cookie(cookie_data: &str) -> (r: Error)
        ensures
            r@ == client(ClientErrorModel::UnparseableCookie(cookie_data@)),
    {
        Error::ClientError(ClientError::UnparseableCookie(String::from_str(cookie_data)))
    }

    pub fn duplicate_cookies(name: &str, value: &str, old_value: &str) -> (r: Error)
        ensures
            r@ == client(
                ClientErrorModel::DuplicateCookies {
                    name: name@,
                    value: value@,
                    old_value: old_value@,
                },
            ),
    {
        Error::ClientError(
            ClientError::DuplicateCookies {
                name: String::from_str(name),
                value: String::from_str(value),
                old_value: String::from_str(old_value),
            },
        )
    }

    pub fn content_length_missing() -> (r: Error)
        ensures
            r@ == client(ClientErrorModel::InvalidContentLength("No content length given"@)),
    {
        Error::ClientError(
            ClientError::InvalidContentLength(String::from_str("No content length given")),
        )
    }

    /// The header is not an unsigned integer; `reason` says why.
    pub fn content_length_not_int(reason: &str) -> (r: Error)
        ensures
            r@ == client(ClientErrorModel::InvalidContentLength("Invalid unsigned int: "@ + reason@)),
    {
        Error::ClientError(
            ClientError::InvalidContentLength(
                String::from_str("Invalid unsigned int: ").concat(reason),
            ),
        )
    }

    pub fn content_length_too_large(parsed: usize, max: usize) -> (r: Error)
        ensures
            r@ == client(
                ClientErrorModel::InvalidContentLength(too_large_message(parsed as nat, max as nat)),
            ),
    {
        let m = String::from_str("Too large. Maximum allowed is ").concat(
            decimal_string(max).as_str(),
        ).concat(", received ").concat(decimal_string(parsed).as_str());
        Error::ClientError(ClientError::InvalidContentLength(m))
    }

    pub fn content_length_mismatch(given: usize, promised: usize) -> (r: Error)
        ensures
            r@ == client(
                ClientErrorModel::InvalidContentLength(mismatch_message(given as nat, promised as nat)),
            ),
    {
        let at_least = if given > promised {
            " at least"
        } else {
            ""
        };
        let m = String::from_str("Mismatch. Header is ").concat(decimal_string(promised).as_str()).concat(
            ", received ",
        ).concat(at_least).concat(" ").concat(decimal_string(given).as_str());
        Error::ClientError(ClientError::InvalidContentLength(m))
    }

    pub fn invalid_content_type(parsed: &str, expected: &str) -> (r: Error)
        ensures
            r@ == client(ClientErrorModel::InvalidContentType(content_type_message(parsed@, expected@))),
    {
        let m = String::from_str("Expected ").concat(parsed).concat(", received ").concat(expected);
        Error::ClientError(ClientError::InvalidContentType(m))
    }
}

} // verus!
