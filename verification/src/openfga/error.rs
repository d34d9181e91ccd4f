//! Errors of authorization.
use vstd::prelude::*;
use crate::text::{owned, concat2};

verus! {

/// Errors of authorization.
#[derive(Debug, Clone, PartialEq, Eq)]
pub enum Error {
    /// Not set up.
    NotInitialized(String),
    /// The OpenFGA API answered with an error.
    OpenFGA(String),
    /// The HTTP request failed; the text describes the failure.
    Http(String),
    /// No store is configured.
    StoreNotFound,
    /// No authorization model exists.
    ModelNotFound,
    /// No such role.
    RoleNotFound(String),
    /// No such group.
    GroupNotFound(String),
    /// No such user.
    UserNotFound(String),
    /// Permission denied.
    PermissionDenied(String),
    /// Invalid permission.
    InvalidPermission(String),
    /// Invalid resource type.
    InvalidResourceType(String),
    /// The entry exists already.
    DuplicateEntry(String),
    /// Invalid input.
    Validation(String),
    /// Reading or writing JSON failed.
    Serialization(String),
    /// Configuration error.
    Config(String),
    /// Internal error.
    Internal(String),
}

/// The text of an error.
pub open spec fn fga_error_message(e: &Error) -> Seq<char> {
    match e {
        Error::NotInitialized(m) => "Not initialized: "@ + m@,
        Error::OpenFGA(m) => "OpenFGA error: "@ + m@,
        Error::Http(m) => "HTTP error: "@ + m@,
        Error::StoreNotFound => "OpenFGA store not found"@,
        Error::ModelNotFound => "OpenFGA authorization model not found"@,
        Error::RoleNotFound(m) => "Role not found: "@ + m@,
        Error::GroupNotFound(m) => "Group not found: "@ + m@,
        Error::UserNotFound(m) => "User not found: "@ + m@,
        Error::PermissionDenied(m) => "Permission denied: "@ + m@,
        Error::InvalidPermission(m) => "Invalid permission: "@ + m@,
        Error::InvalidResourceType(m) => "Invalid resource type: "@ + m@,
        Error::DuplicateEntry(m) => "Duplicate entry: "@ + m@,
        Error::Validation(m) => "Validation error: "@ + m@,
        Error::Serialization(m) => "Serialization error: "@ + m@,
        Error::Config(m) => "Configuration error: "@ + m@,
        Error::Internal(m) => "Internal error: "@ + m@,
    }
}

/// The HTTP status that answers an error: 503 when not set up, 404 for a missing role,
/// group or user, 403 for a denied permission, 409 for a duplicate, 400 for invalid
/// input, 500 otherwise.
pub open spec fn fga_error_status(e: &Error) -> u16 {
    match e {
        Error::NotInitialized(_) => 503,
        Error::RoleNotFound(_) => 404,
        Error::GroupNotFound(_) => 404,
        Error::UserNotFound(_) => 404,
        Error::PermissionDenied(_) => 403,
        Error::DuplicateEntry(_) => 409,
        Error::InvalidPermission(_) => 400,
        Error::InvalidResourceType(_) => 400,
        Error::Validation(_) => 400,
        _ => 500,
    }
}

impl Error {
    /// The text of this error.
    pub fn message(&self) -> (r: String)
        ensures
            r@ == fga_error_message(self),
    {
        match self {
            Error::NotInitialized(m) => concat2("Not initialized: ", m.as_str()),
            Error::OpenFGA(m) => concat2("OpenFGA error: ", m.as_str()),
            Error::Http(m) => concat2("HTTP error: ", m.as_str()),
            Error::StoreNotFound => owned("OpenFGA store not found"),
            Error::ModelNotFound => owned("OpenFGA authorization model not found"),
            Error::RoleNotFound(m) => concat2("Role not found: ", m.as_str()),
            Error::GroupNotFound(m) => concat2("Group not found: ", m.as_str()),
            Error::UserNotFound(m) => concat2("User not found: ", m.as_str()),
            Error::PermissionDenied(m) => concat2("Permission denied: ", m.as_str()),
            Error::InvalidPermission(m) => concat2("Invalid permission: ", m.as_str()),
            Error::InvalidResourceType(m) => concat2("Invalid resource type: ", m.as_str()),
            Error::DuplicateEntry(m) => concat2("Duplicate entry: ", m.as_str()),
            Error::Validation(m) => concat2("Validation error: ", m.as_str()),
            Error::Serialization(m) => concat2("Serialization error: ", m.as_str()),
            Error::Config(m) => concat2("Configuration error: ", m.as_str()),
            Error::Internal(m) => concat2("Internal error: ", m.as_str()),
        }
    }

    /// The HTTP status that answers this error; the answer's body holds the error's text
    /// as "message".
    pub fn status_code(&self) -> (r: u16)
        ensures
            r == fga_error_status(self),
    {
        match self {
            Error::NotInitialized(_) => 503,
            Error::RoleNotFound(_) => 404,
            Error::GroupNotFound(_) => 404,
            Error::UserNotFound(_) => 404,
            Error::PermissionDenied(_) => 403,
            Error::DuplicateEntry(_) => 409,
            Error::InvalidPermission(_) => 400,
            Error::InvalidResourceType(_) => 400,
            Error::Validation(_) => 400,
            _ => 500,
        }
    }
}

} // verus!
