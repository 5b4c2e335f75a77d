//! What a failed insert of a named resource means to the user. The store
//! arbitrates concurrent creations through its uniqueness and check
//! constraints; a violated constraint is the user's doing, anything else
//! is the operator's.
use vstd::prelude::*;
use vstd::string::*;
use crate::error::{ClientError, ClientErrorModel, Error, ErrorModel, InternalError, InternalErrorModel, client};
use crate::http::STATUS_CONFLICT;
use crate::respond::{PageKind, error_page_of};

verus! {

/// The kinds of resource created under a name.
#[derive(PartialEq, Eq, Structural, Clone, Copy, Debug)]
pub enum Resource {
    Bookkeeping,
    Account,
    Grouping,
}

/// How the store refused an insert, with its own description.
pub enum StoreFailure {
    /// A uniqueness constraint, such as a name already used in the same
    /// scope.
    UniqueViolation(String),
    /// A check constraint, such as an empty name.
    CheckViolation(String),
    Other(String),
}

pub open spec fn failure_description(f: StoreFailure) -> Seq<char> {
    match f {
        StoreFailure::UniqueViolation(d) => d@,
        StoreFailure::CheckViolation(d) => d@,
        StoreFailure::Other(d) => d@,
    }
}

pub open spec fn conflict_prefix(kind: Resource) -> Seq<char> {
    match kind {
        Resource::Bookkeeping => "A Bookkeeping by name "@,
        Resource::Account => "An account by name "@,
        Resource::Grouping => "A grouping by name "@,
    }
}

pub open spec fn conflict_suffix(kind: Resource) -> Seq<char> {
    match kind {
        Resource::Bookkeeping => " already exists."@,
        Resource::Account => " already exists in this bookkeeping."@,
        Resource::Grouping => " already exists in this bookkeeping."@,
    }
}

/// The message for a name that is already taken: it names the resource.
pub open spec fn conflict_message(kind: Resource, name: Seq<char>) -> Seq<char> {
    conflict_prefix(kind) + name + conflict_suffix(kind)
}

pub open spec fn empty_name_message() -> Seq<char> {
    "A Bookkeeping name must contain at least one character."@
}

/// The error for a failed insert of a `kind` named `name`.
pub open spec fn creation_error_model(kind: Resource, name: Seq<char>, f: StoreFailure) -> ErrorModel {
    match f {
        StoreFailure::UniqueViolation(_) => client(ClientErrorModel::AlreadyExists(conflict_message(kind, name))),
        StoreFailure::CheckViolation(_) if kind == Resource::Bookkeeping => client(
            ClientErrorModel::InvalidData(empty_name_message()),
        ),
        _ => ErrorModel::Internal(InternalErrorModel::Db(failure_description(f))),
    }
}

/// Turns a refused insert of a `kind` named `name` into the error to show.
pub fn creation_error(kind: Resource, name: &str, failure: StoreFailure) -> (r: Error)
    ensures
        r@ == creation_error_model(kind, name@, failure),
{
    match failure {
        StoreFailure::UniqueViolation(_) => {
            let (prefix, suffix) = match kind {
                Resource::Bookkeeping => ("A Bookkeeping by name ", " already exists."),
                Resource::Account => ("An account by name ", " already exists in this bookkeeping."),
                Resource::Grouping => ("A grouping by name ", " already exists in this bookkeeping."),
            };
            Error::ClientError(
                ClientError::AlreadyExists(String::from_str(prefix).concat(name).concat(suffix)),
            )
        },
        StoreFailure::CheckViolation(d) => {
            if kind == Resource::Bookkeeping {
                Error::ClientError(
                    ClientError::InvalidData(
                        String::from_str("A Bookkeeping name must contain at least one character."),
                    ),
                )
            } else {
                Error::InternalError(InternalError::Db(d))
            }
        },
        StoreFailure::Other(d) => Error::InternalError(InternalError::Db(d)),
    }
}

/// Creating a resource under a name already used in its scope is answered
/// with status 409, in the form's error slot, with a message that names
/// the resource.
pub proof fn lemma_duplicate_name_conflict(kind: Resource, name: Seq<char>, d: String)
    ensures
        ({
            let page = error_page_of(creation_error_model(kind, name, StoreFailure::UniqueViolation(d)));
            let k = conflict_prefix(kind).len() as int;
            &&& page.0 == STATUS_CONFLICT
            &&& page.1 == PageKind::Input
            &&& page.2 == conflict_message(kind, name)
            &&& page.2.subrange(k, k + name.len()) == name
        }),
{
    let k = conflict_prefix(kind).len() as int;
    assert(conflict_message(kind, name).subrange(k, k + name.len()) =~= name);
}

} // verus!
