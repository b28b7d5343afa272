//! The ORM-backed relational repository, deliberately stubbed: every
//! operation reports `NotImplemented`.  Its pooled connection handle
//! is construction-time plumbing that lives outside the library.

use vstd::prelude::*;
use crate::companies::models::{Company, CompanyRequest};
use crate::error::AppError;

verus! {

/// The stubbed ORM backend.
pub struct ORMPostgresRepository {
}

impl ORMPostgresRepository {
    /// Lists nothing yet: deliberately stubbed.
    pub fn list(&self, name_filter: Option<String>) -> (r: Result<Vec<Company>, AppError>)
        ensures
            r matches Err(e) && e matches AppError::NotImplemented,
    {
        Err(AppError::NotImplemented)
    }

    /// Fetches nothing yet: deliberately stubbed.
    pub fn get(&self, id: &str) -> (r: Result<Option<Company>, AppError>)
        ensures
            r matches Err(e) && e matches AppError::NotImplemented,
    {
        Err(AppError::NotImplemented)
    }

    /// Creates nothing yet: deliberately stubbed.
    pub fn create(&self, req: CompanyRequest) -> (r: Result<Company, AppError>)
        ensures
            r matches Err(e) && e matches AppError::NotImplemented,
    {
        Err(AppError::NotImplemented)
    }

    /// Updates nothing yet: deliberately stubbed.
    pub fn update(&self, id: &str, req: CompanyRequest) -> (r: Result<Option<Company>, AppError>)
        ensures
            r matches Err(e) && e matches AppError::NotImplemented,
    {
        Err(AppError::NotImplemented)
    }

    /// Duplicates nothing yet: deliberately stubbed.
    pub fn duplicate(&self, id: &str) -> (r: Result<Option<Company>, AppError>)
        ensures
            r matches Err(e) && e matches AppError::NotImplemented,
    {
        Err(AppError::NotImplemented)
    }
}

} // verus!
