//! The company route handlers, as functions from a repository outcome
//! to the served status code and body.
//!
//! The transport layer performs the repository call (whichever backend
//! is bound) and hands the outcome here; these functions decide the
//! response exactly as the HTTP surface demands: 200 for a served
//! entity or listing, 201 for a creation, 404 for an absent entity,
//! and the failure's own status otherwise.

use vstd::prelude::*;
use crate::companies::models::Company;
use crate::error::AppError;

verus! {

/// What a company response carries: a listing, one entity, or the
/// text of the `error` field.
pub enum ApiBody {
    Companies(Vec<Company>),
    Company(Company),
    Failure(String),
}

/// The not-found text for a company identifier.
pub open spec fn spec_missing_company(id: Seq<char>) -> Seq<char> {
    "Compañía con ID "@ + id + " no encontrada"@
}

/// Builds the not-found text for a company identifier.
pub fn missing_company(id: &str) -> (msg: String)
    ensures
        msg@ == spec_missing_company(id@),
{
    String::from_str("Compañía con ID ").concat(id).concat(" no encontrada")
}

/// The failure arm every handler shares.
fn failure(e: &AppError) -> (r: (u16, ApiBody))
    ensures
        r.0 == e.spec_status_code(),
        r.1 matches ApiBody::Failure(m) && m@ == e.spec_public_message(),
{
    (e.status_code(), ApiBody::Failure(e.public_message()))
}

/// Serves a listing: 200 with the records on success, the failure's
/// status and public message otherwise.
pub fn list_companies(outcome: Result<Vec<Company>, AppError>) -> (r: (u16, ApiBody))
    ensures
        (outcome matches Ok(cs) ==> r.0 == 200 && r.1 == ApiBody::Companies(cs)),
        (outcome matches Err(e) ==> r.0 == e.spec_status_code() && (r.1 matches ApiBody::Failure(m)
            && m@ == e.spec_public_message())),
{
    match outcome {
        Ok(companies) => (200, ApiBody::Companies(companies)),
        Err(e) => failure(&e),
    }
}

/// Serves a creation: 201 with the new record on success.
pub fn create_company(outcome: Result<Company, AppError>) -> (r: (u16, ApiBody))
    ensures
        (outcome matches Ok(c) ==> r.0 == 201 && r.1 == ApiBody::Company(c)),
        (outcome matches Err(e) ==> r.0 == e.spec_status_code() && (r.1 matches ApiBody::Failure(m)
            && m@ == e.spec_public_message())),
{
    match outcome {
        Ok(created) => (201, ApiBody::Company(created)),
        Err(e) => failure(&e),
    }
}

/// Serves a fetch: 200 with the record, or 404 with the not-found
/// text when the identifier is unknown.
pub fn get_company(id: &str, outcome: Result<Option<Company>, AppError>) -> (r: (u16, ApiBody))
    ensures
        (outcome matches Ok(Some(c)) ==> r.0 == 200 && r.1 == ApiBody::Company(c)),
        (outcome matches Ok(None) ==> r.0 == 404 && (r.1 matches ApiBody::Failure(m) && m@
            == spec_missing_company(id@))),
        (outcome matches Err(e) ==> r.0 == e.spec_status_code() && (r.1 matches ApiBody::Failure(m)
            && m@ == e.spec_public_message())),
{
    match outcome {
        Ok(Some(company)) => (200, ApiBody::Company(company)),
        Ok(None) => {
            let absent = AppError::NotFound(missing_company(id));
            failure(&absent)
        }
        Err(e) => failure(&e),
    }
}

/// Serves a partial update: 200 with the merged record, or 404 when
/// the identifier is unknown.
pub fn update_company(id: &str, outcome: Result<Option<Company>, AppError>) -> (r: (u16, ApiBody))
    ensures
        (outcome matches Ok(Some(c)) ==> r.0 == 200 && r.1 == ApiBody::Company(c)),
        (outcome matches Ok(None) ==> r.0 == 404 && (r.1 matches ApiBody::Failure(m) && m@
            == spec_missing_company(id@))),
        (outcome matches Err(e) ==> r.0 == e.spec_status_code() && (r.1 matches ApiBody::Failure(m)
            && m@ == e.spec_public_message())),
{
    match outcome {
        Ok(Some(company)) => (200, ApiBody::Company(company)),
        Ok(None) => {
            let absent = AppError::NotFound(missing_company(id));
            failure(&absent)
        }
        Err(e) => failure(&e),
    }
}

/// Serves a duplication: 201 with the copy, or 404 when the
/// identifier is unknown.
pub fn duplicate_company(id: &str, outcome: Result<Option<Company>, AppError>) -> (r: (
    u16,
    ApiBody,
))
    ensures
        (outcome matches Ok(Some(d)) ==> r.0 == 201 && r.1 == ApiBody::Company(d)),
        (outcome matches Ok(None) ==> r.0 == 404 && (r.1 matches ApiBody::Failure(m) && m@
            == spec_missing_company(id@))),
        (outcome matches Err(e) ==> r.0 == e.spec_status_code() && (r.1 matches ApiBody::Failure(m)
            && m@ == e.spec_public_message())),
{
    match outcome {
        Ok(Some(copy)) => (201, ApiBody::Company(copy)),
        Ok(None) => {
            let absent = AppError::NotFound(missing_company(id));
            failure(&absent)
        }
        Err(e) => failure(&e),
    }
}

} // verus!
