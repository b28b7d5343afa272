//! The work-type route handlers, as functions from a repository
//! outcome to the served status code and body.

use vstd::prelude::*;
use crate::error::AppError;
use crate::worktypes::models::WorkType;

verus! {

/// What a work-type response carries.
pub enum WorkTypeBody {
    WorkTypes(Vec<WorkType>),
    WorkType(WorkType),
    Failure(String),
}

/// Serves the listing: 200 with the records on success, the
/// failure's status and public message otherwise.
pub fn list_worktypes(outcome: Result<Vec<WorkType>, AppError>) -> (r: (u16, WorkTypeBody))
    ensures
        (outcome matches Ok(ws) ==> r.0 == 200 && r.1 == WorkTypeBody::WorkTypes(ws)),
        (outcome matches Err(e) ==> r.0 == e.spec_status_code() && (
        r.1 matches WorkTypeBody::Failure(m) && m@ == e.spec_public_message())),
{
    match outcome {
        Ok(work_types) => (200, WorkTypeBody::WorkTypes(work_types)),
        Err(e) => (e.status_code(), WorkTypeBody::Failure(e.public_message())),
    }
}

/// Serves a creation: 201 with the new record on success.
pub fn create_worktype(outcome: Result<WorkType, AppError>) -> (r: (u16, WorkTypeBody))
    ensures
        (outcome matches Ok(w) ==> r.0 == 201 && r.1 == WorkTypeBody::WorkType(w)),
        (outcome matches Err(e) ==> r.0 == e.spec_status_code() && (
        r.1 matches WorkTypeBody::Failure(m) && m@ == e.spec_public_message())),
{
    match outcome {
        Ok(created) => (201, WorkTypeBody::WorkType(created)),
        Err(e) => (e.status_code(), WorkTypeBody::Failure(e.public_message())),
    }
}

} // verus!
