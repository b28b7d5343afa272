//! The schema-provisioning step: statement splitting, trimming, and
//! the tolerance that makes the step idempotent.

use companies_api::companies::sql::COMPANY_QUERY;
use companies_api::error::AppError;
use companies_api::provision::{provision_step, split_statements, trim_piece};
use companies_api::worktypes::sql::{QUERY, WORKTYPE_QUERY};

#[test]
fn splitting_trims_and_drops_empty_pieces() {
    let pieces = split_statements(" CREATE TABLE a (x INT) ;\n CREATE TABLE b (y INT) ; \n");
    assert_eq!(
        pieces,
        vec!["CREATE TABLE a (x INT)".to_string(), "CREATE TABLE b (y INT)".to_string()]
    );
}

#[test]
fn splitting_handles_edge_shapes() {
    assert!(split_statements("").is_empty());
    assert!(split_statements(" ;; ;\n;").is_empty());
    assert_eq!(split_statements("one"), vec!["one".to_string()]);
    assert_eq!(split_statements(";tail"), vec!["tail".to_string()]);
    assert_eq!(split_statements("head;"), vec!["head".to_string()]);
}

#[test]
fn splitting_is_deterministic_across_runs() {
    let first = split_statements(WORKTYPE_QUERY);
    let second = split_statements(WORKTYPE_QUERY);
    assert_eq!(first, second);
}

#[test]
fn provisioning_scripts_split_into_their_statements() {
    let company = split_statements(COMPANY_QUERY);
    assert_eq!(company.len(), 1);
    assert!(company[0].starts_with("CREATE TABLE IF NOT EXISTS company"));

    let worktypes = split_statements(QUERY);
    assert_eq!(worktypes.len(), 2);
    assert!(worktypes[0].starts_with("CREATE TABLE IF NOT EXISTS WorkType"));
    assert!(worktypes[1].starts_with("CREATE TABLE IF NOT EXISTS WorkAttributeType"));

    let legacy = split_statements(WORKTYPE_QUERY);
    assert_eq!(legacy.len(), 2);
    assert!(legacy[0].starts_with("CREATE TABLE WorkType"));
}

#[test]
fn trimming_removes_edge_whitespace_only() {
    assert_eq!(trim_piece("  a b \n\t"), "a b".to_string());
    assert_eq!(trim_piece(""), "".to_string());
    assert_eq!(trim_piece(" \n "), "".to_string());
    assert_eq!(trim_piece("x"), "x".to_string());
}

#[test]
fn an_existing_object_never_aborts_provisioning() {
    assert!(provision_step(true, false, "").is_ok());
    assert!(provision_step(false, true, "relation already exists").is_ok());
}

#[test]
fn any_other_failure_aborts_as_a_storage_failure() {
    let err = provision_step(false, false, "syntax error at or near").unwrap_err();
    match err {
        AppError::Database(detail) => assert_eq!(detail, "syntax error at or near"),
        _ => panic!("expected a storage failure"),
    }
    assert_eq!(
        provision_step(false, false, "x").unwrap_err().status_code(),
        500
    );
}
