//! Plain data records of the wider company domain: offices, users,
//! employees, certification templates, documents, reports and
//! per-company configuration entries.  Dates are day-precision
//! instants in milliseconds since the Unix epoch.

use vstd::prelude::*;

verus! {

/// A company office.
#[derive(Debug, Clone)]
pub struct Office {
    pub id: String,
    pub name: String,
    pub address: String,
    pub postal_code: i32,
    pub city: String,
    pub province: String,
    pub size: i32,
    pub target_year: String,
    pub comparative_year: String,
    pub company_id: String,
}

/// An account and its role.
#[derive(Debug, Clone)]
pub struct User {
    pub id: String,
    pub name: Option<String>,
    pub email: Option<String>,
    pub role: Role,
    pub company_id: Option<String>,
}

/// The access role of a user.
#[derive(Debug, Clone, Copy, PartialEq, Eq, Structural)]
pub enum Role {
    Company,
    Admin,
    Certifier,
    God,
}

/// An employee record.
#[derive(Debug, Clone)]
pub struct Employee {
    pub id: String,
    pub email: String,
    pub role: String,
    pub company_id: String,
}

/// A certification template a company issues documents from.
#[derive(Debug, Clone)]
pub struct CertificationTemplate {
    pub id: i32,
    pub company_id: String,
    pub name: String,
    pub description: Option<String>,
    pub logo: String,
}

/// A stored document and where its bytes live.
#[derive(Debug, Clone)]
pub struct Document {
    pub id: String,
    pub user_id: String,
    pub company_id: String,
    pub date: i64,
    pub url: String,
    pub original_filename: String,
    pub storage_type: DocumentStorageType,
}

/// Where a document's bytes live.
#[derive(Debug, Clone, Copy, PartialEq, Eq, Structural)]
pub enum DocumentStorageType {
    Local,
    Remote,
}

/// A generated report and the tags it covers.
#[derive(Debug, Clone)]
pub struct Report {
    pub id: String,
    pub company_id: String,
    pub date: i64,
    pub document_id: String,
    pub format: String,
    pub data_type: String,
    pub selected_tags: Vec<String>,
}

/// One per-company configuration entry.
#[derive(Debug, Clone)]
pub struct CompanyConfig {
    pub id: String,
    pub company_id: String,
    pub key: String,
    pub label: Option<String>,
    pub visible: bool,
}

} // verus!
