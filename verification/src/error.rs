//! The failure taxonomy shared by every module and backend.
//!
//! A storage failure is always a distinct variant, never an empty
//! result, so callers can tell "absent" from "unreachable".

use vstd::prelude::*;

verus! {

/// Everything that can go wrong while serving a request.
///
/// `NotFound` maps to 404, `Validation` to 400, and the remaining
/// variants to 500.  The payload of `Database`, `Orm` and `Internal`
/// is server-side detail; it never reaches a client.
#[derive(Debug)]
pub enum AppError {
    /// The addressed entity does not exist.
    NotFound(String),
    /// The durable relational backend failed or is unreachable.
    Database(String),
    /// The pooled connection manager of the stubbed backend failed.
    Orm(String),
    /// The request payload is malformed.
    Validation(String),
    /// Any other server-side fault.
    Internal(String),
    /// An operation that is deliberately stubbed out.
    NotImplemented,
}

impl AppError {
    /// The HTTP status class of each failure variant.
    pub open spec fn spec_status_code(&self) -> u16 {
        match self {
            AppError::NotFound(_) => 404,
            AppError::Validation(_) => 400,
            _ => 500,
        }
    }

    /// Whether the detail of the variant may be shown to a client.
    pub open spec fn spec_is_client_visible(&self) -> bool {
        self matches AppError::NotFound(_) || self matches AppError::Validation(_)
    }

    /// The text a client sees for each failure variant.
    pub open spec fn spec_public_message(&self) -> Seq<char> {
        match self {
            AppError::NotFound(m) => m@,
            AppError::Validation(m) => m@,
            AppError::Database(_) => "Error interno de base de datos"@,
            AppError::Orm(_) => "Error interno de base de datos"@,
            AppError::Internal(_) => "Error interno del servidor"@,
            AppError::NotImplemented => "Error interno del servidor"@,
        }
    }

    /// The HTTP status code this failure is reported with.
    pub fn status_code(&self) -> (code: u16)
        ensures
            code == self.spec_status_code(),
    {
        match self {
            AppError::NotFound(_) => 404,
            AppError::Validation(_) => 400,
            AppError::Database(_) => 500,
            AppError::Orm(_) => 500,
            AppError::Internal(_) => 500,
            AppError::NotImplemented => 500,
        }
    }

    /// The message placed in the `error` field of a failure response.
    ///
    /// Only `NotFound` and `Validation` expose their own message;
    /// every other variant is reported with a generic text so that
    /// driver errors and query text never leave the server.
    pub fn public_message(&self) -> (msg: String)
        ensures
            msg@ == self.spec_public_message(),
    {
        match self {
            AppError::NotFound(m) => m.clone(),
            AppError::Validation(m) => m.clone(),
            AppError::Database(_) => String::from_str("Error interno de base de datos"),
            AppError::Orm(_) => String::from_str("Error interno de base de datos"),
            AppError::Internal(_) => String::from_str("Error interno del servidor"),
            AppError::NotImplemented => String::from_str("Error interno del servidor"),
        }
    }
}

} // verus!
