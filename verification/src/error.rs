//! The ways a request can fail, and what a client is told of each.

use vstd::prelude::*;

verus! {

/// Status of a reply that carries a reading.
pub const STATUS_OK: u16 = 200;

/// Status of a reply to a recorded reading.
pub const STATUS_CREATED: u16 = 201;

/// Status for a request that is malformed.
pub const STATUS_BAD_REQUEST: u16 = 400;

/// Status where no reading has the identifier asked for.
pub const STATUS_NOT_FOUND: u16 = 404;

/// Status where the store failed on a query or an insert.
pub const STATUS_INTERNAL_SERVER_ERROR: u16 = 500;

/// Status where the store could not be reached.
pub const STATUS_SERVICE_UNAVAILABLE: u16 = 503;

/// Why a request was not served.
#[derive(Clone, Copy, Debug, PartialEq, Eq, Structural)]
pub enum ServiceError {
    /// The request body or the identifier in its path is malformed.
    Validation,
    /// No stored reading has the identifier.
    NotFound,
    /// The store failed on a query or an insert.
    Storage,
    /// No connection to the store could be made.
    Connection,
}

/// How an exchange with the store went wrong.
#[derive(Clone, Copy, Debug, PartialEq, Eq, Structural)]
pub enum StoreFailure {
    /// The connection string was refused or no client could be made.
    Unavailable,
    /// The store was reached and the operation failed.
    Failed,
}

impl StoreFailure {
    /// The error a request ends with after this failure.
    pub open spec fn spec_error(self) -> ServiceError {
        match self {
            StoreFailure::Unavailable => ServiceError::Connection,
            StoreFailure::Failed => ServiceError::Storage,
        }
    }

    /// The error a request ends with after this failure.
    pub fn error(self) -> (error: ServiceError)
        ensures
            error == self.spec_error(),
    {
        match self {
            StoreFailure::Unavailable => ServiceError::Connection,
            StoreFailure::Failed => ServiceError::Storage,
        }
    }
}

impl ServiceError {
    /// The status that goes with the error.
    pub open spec fn spec_status(self) -> u16 {
        match self {
            ServiceError::Validation => STATUS_BAD_REQUEST,
            ServiceError::NotFound => STATUS_NOT_FOUND,
            ServiceError::Storage => STATUS_INTERNAL_SERVER_ERROR,
            ServiceError::Connection => STATUS_SERVICE_UNAVAILABLE,
        }
    }

    /// The message that goes with the error. It names the kind of failure
    /// and nothing of its cause.
    pub open spec fn spec_message(self) -> Seq<char> {
        match self {
            ServiceError::Validation => "Bad Request"@,
            ServiceError::NotFound => "Not Found"@,
            ServiceError::Storage => "Internal Server Error"@,
            ServiceError::Connection => "Service Unavailable"@,
        }
    }

    /// The status that goes with the error.
    pub fn status(&self) -> (status: u16)
        ensures
            status == self.spec_status(),
    {
        match self {
            ServiceError::Validation => STATUS_BAD_REQUEST,
            ServiceError::NotFound => STATUS_NOT_FOUND,
            ServiceError::Storage => STATUS_INTERNAL_SERVER_ERROR,
            ServiceError::Connection => STATUS_SERVICE_UNAVAILABLE,
        }
    }

    /// The message that goes with the error.
    pub fn message(&self) -> (message: String)
        ensures
            message@ == self.spec_message(),
    {
        match self {
            ServiceError::Validation => "Bad Request".to_owned(),
            ServiceError::NotFound => "Not Found".to_owned(),
            ServiceError::Storage => "Internal Server Error".to_owned(),
            ServiceError::Connection => "Service Unavailable".to_owned(),
        }
    }
}

} // verus!
