//! Errors of authentication.
use vstd::prelude::*;
use crate::text::{owned, concat2};

verus! {

/// Errors of authentication.
#[derive(Debug, Clone, PartialEq, Eq)]
pub enum Error {
    /// Invalid credentials.
    InvalidCredentials(String),
    /// The token did not validate.
    InvalidToken(String),
    /// The token has expired.
    TokenExpired,
    /// No such user.
    UserNotFound(String),
    /// No such connector.
    ConnectorNotFound(String),
    /// The connector exists already.
    ConnectorExists(String),
    /// Invalid connector configuration.
    InvalidConnector(String),
    /// gRPC communication failed.
    GrpcError(String),
    /// HTTP communication failed.
    HttpError(String),
    /// Configuration error.
    ConfigError(String),
    /// Internal error.
    Internal(String),
}

/// The text of an error.
pub open spec fn dex_error_message(e: Error) -> Seq<char> {
    match e {
        Error::InvalidCredentials(m) => "Invalid credentials: "@ + m@,
        Error::InvalidToken(m) => "Invalid token: "@ + m@,
        Error::TokenExpired => "Token has expired"@,
        Error::UserNotFound(m) => "User not found: "@ + m@,
        Error::ConnectorNotFound(m) => "Connector not found: "@ + m@,
        Error::ConnectorExists(m) => "Connector already exists: "@ + m@,
        Error::InvalidConnector(m) => "Invalid connector configuration: "@ + m@,
        Error::GrpcError(m) => "gRPC error: "@ + m@,
        Error::HttpError(m) => "HTTP error: "@ + m@,
        Error::ConfigError(m) => "Configuration error: "@ + m@,
        Error::Internal(m) => "Internal error: "@ + m@,
    }
}

/// The HTTP status that answers an error: 401 for credentials and tokens, 404 for a
/// missing user or connector, 409 for an existing connector, 400 for an invalid one, 502
/// for failed communication, 500 otherwise.
pub open spec fn dex_error_status(e: Error) -> u16 {
    match e {
        Error::InvalidCredentials(_) => 401,
        Error::InvalidToken(_) => 401,
        Error::TokenExpired => 401,
        Error::UserNotFound(_) => 404,
        Error::ConnectorNotFound(_) => 404,
        Error::ConnectorExists(_) => 409,
        Error::InvalidConnector(_) => 400,
        Error::GrpcError(_) => 502,
        Error::HttpError(_) => 502,
        Error::ConfigError(_) => 500,
        Error::Internal(_) => 500,
    }
}

impl Error {
    /// The text of this error.
    pub fn message(&self) -> (r: String)
        ensures
            r@ == dex_error_message(*self),
    {
        match self {
            Error::InvalidCredentials(m) => concat2("Invalid credentials: ", m.as_str()),
            Error::InvalidToken(m) => concat2("Invalid token: ", m.as_str()),
            Error::TokenExpired => owned("Token has expired"),
            Error::UserNotFound(m) => concat2("User not found: ", m.as_str()),
            Error::ConnectorNotFound(m) => concat2("Connector not found: ", m.as_str()),
            Error::ConnectorExists(m) => concat2("Connector already exists: ", m.as_str()),
            Error::InvalidConnector(m) => concat2("Invalid connector configuration: ", m.as_str()),
            Error::GrpcError(m) => concat2("gRPC error: ", m.as_str()),
            Error::HttpError(m) => concat2("HTTP error: ", m.as_str()),
            Error::ConfigError(m) => concat2("Configuration error: ", m.as_str()),
            Error::Internal(m) => concat2("Internal error: ", m.as_str()),
        }
    }

    /// The HTTP status that answers this error; the answer's body holds this status as
    /// "code" and the error's text as "message".
    pub fn status_code(&self) -> (r: u16)
        ensures
            r == dex_error_status(*self),
    {
        match self {
            Error::InvalidCredentials(_) => 401,
            Error::InvalidToken(_) => 401,
            Error::TokenExpired => 401,
            Error::UserNotFound(_) => 404,
            Error::ConnectorNotFound(_) => 404,
            Error::ConnectorExists(_) => 409,
            Error::InvalidConnector(_) => 400,
            Error::GrpcError(_) => 502,
            Error::HttpError(_) => 502,
            Error::ConfigError(_) => 500,
            Error::Internal(_) => 500,
        }
    }
}

} // verus!
