//! The work-type family: wire tokens, default seeding, request
//! conversion, handler statuses, and the grouping of the flat scan.

use companies_api::error::AppError;
use companies_api::worktypes::assemble::{assemble_work_types, WorkTypeRow};
use companies_api::worktypes::handlers::{create_worktype, list_worktypes, WorkTypeBody};
use companies_api::worktypes::models::{DataType, WorkAttributeType, WorkType};
use companies_api::worktypes::requests::{CreateWorkAttributeType, CreateWorkType};

#[test]
fn data_type_tokens_round_trip_exactly() {
    assert_eq!(DataType::StringType.token(), "string");
    assert_eq!(DataType::NumericType.token(), "numeric");
    assert_eq!(DataType::from_str("string").unwrap(), DataType::StringType);
    assert_eq!(DataType::from_str("numeric").unwrap(), DataType::NumericType);
}

#[test]
fn unknown_data_type_token_is_a_validation_failure() {
    let err = DataType::from_str("STRING").unwrap_err();
    assert!(matches!(err, AppError::Validation(_)));
    assert_eq!(err.status_code(), 400);
    let err = DataType::from_str("boolean").unwrap_err();
    assert!(matches!(err, AppError::Validation(_)));
}

#[test]
fn defaulted_work_type_seeds_summary_and_description() {
    let w = WorkType::default("Install".to_string());
    assert_eq!(w.title, "Install");
    assert!(w.description.is_none());
    assert_eq!(w.attributes.len(), 2);
    assert_eq!(w.attributes[0].name, "Summary");
    assert_eq!(w.attributes[1].name, "Description");
    for a in &w.attributes {
        assert_eq!(a.data_type, DataType::StringType);
        assert!(a.is_required);
        assert!(!a.is_hidden);
    }
    assert_eq!(w.created_at, w.updated_at);
}

#[test]
fn attribute_constructors_set_their_shape() {
    let a = WorkAttributeType::new("Cost".to_string(), DataType::NumericType, true, true);
    assert_eq!(a.name, "Cost");
    assert_eq!(a.data_type, DataType::NumericType);
    assert!(a.is_required);
    assert!(a.is_hidden);
    let b = WorkAttributeType::new_name_data_type("Note".to_string(), DataType::StringType);
    assert!(!b.is_required);
    assert!(!b.is_hidden);
}

#[test]
fn create_request_maps_attribute_for_attribute() {
    let req = CreateWorkType {
        title: "Audit".to_string(),
        description: Some("yearly".to_string()),
        attributes: vec![
            CreateWorkAttributeType {
                name: "Scope".to_string(),
                data_type: DataType::StringType,
                is_required: true,
                is_hidden: false,
            },
            CreateWorkAttributeType {
                name: "Hours".to_string(),
                data_type: DataType::NumericType,
                is_required: false,
                is_hidden: true,
            },
        ],
    };
    let w = WorkType::from_create_request(req);
    assert_eq!(w.title, "Audit");
    assert_eq!(w.description.as_deref(), Some("yearly"));
    assert_eq!(w.attributes.len(), 2);
    assert_eq!(w.attributes[0].name, "Scope");
    assert_eq!(w.attributes[1].name, "Hours");
    assert_eq!(w.attributes[1].data_type, DataType::NumericType);
    assert!(w.attributes[1].is_hidden);
}

fn header_row(id: &str, title: &str) -> WorkTypeRow {
    WorkTypeRow {
        work_type_id: id.to_string(),
        title: title.to_string(),
        description: None,
        work_type_created_at: 100,
        work_type_updated_at: 200,
        attribute_id: None,
        attribute_name: None,
        data_type: None,
        is_required: None,
        is_hidden: None,
        attribute_created_at: None,
        attribute_updated_at: None,
    }
}

fn attr_row(id: &str, title: &str, attr_id: &str, attr_name: &str, token: &str) -> WorkTypeRow {
    let mut row = header_row(id, title);
    row.attribute_id = Some(attr_id.to_string());
    row.attribute_name = Some(attr_name.to_string());
    row.data_type = Some(token.to_string());
    row.is_required = Some(true);
    row.is_hidden = Some(false);
    row.attribute_created_at = Some(150);
    row.attribute_updated_at = Some(150);
    row
}

#[test]
fn grouping_folds_rows_by_work_type_in_first_appearance_order() {
    let rows = vec![
        attr_row("wt-1", "Install", "at-1", "Summary", "string"),
        attr_row("wt-1", "Install", "at-2", "Hours", "numeric"),
        header_row("wt-2", "Audit"),
    ];
    let grouped = assemble_work_types(rows);
    assert_eq!(grouped.len(), 2);
    assert_eq!(grouped[0].id, "wt-1");
    assert_eq!(grouped[0].title, "Install");
    assert_eq!(grouped[0].attributes.len(), 2);
    assert_eq!(grouped[0].attributes[0].name, "Summary");
    assert_eq!(grouped[0].attributes[0].data_type, DataType::StringType);
    assert_eq!(grouped[0].attributes[1].name, "Hours");
    assert_eq!(grouped[0].attributes[1].data_type, DataType::NumericType);
    // a work type with no attributes still appears exactly once
    assert_eq!(grouped[1].id, "wt-2");
    assert!(grouped[1].attributes.is_empty());
    assert_eq!(grouped[1].created_at, 100);
    assert_eq!(grouped[1].updated_at, 200);
}

#[test]
fn grouping_skips_rows_whose_token_is_invalid() {
    let rows = vec![
        attr_row("wt-1", "Install", "at-1", "Summary", "string"),
        attr_row("wt-1", "Install", "at-2", "Broken", "Boolean"),
    ];
    let grouped = assemble_work_types(rows);
    assert_eq!(grouped.len(), 1);
    assert_eq!(grouped[0].attributes.len(), 1);
    assert_eq!(grouped[0].attributes[0].name, "Summary");
}

#[test]
fn worktype_handlers_map_statuses() {
    let w = WorkType::default("Install".to_string());
    let (status, body) = create_worktype(Ok(w));
    assert_eq!(status, 201);
    assert!(matches!(body, WorkTypeBody::WorkType(_)));

    let (status, body) = list_worktypes(Ok(Vec::new()));
    assert_eq!(status, 200);
    assert!(matches!(body, WorkTypeBody::WorkTypes(_)));

    let (status, body) = list_worktypes(Err(AppError::Database("down".to_string())));
    assert_eq!(status, 500);
    match body {
        WorkTypeBody::Failure(m) => assert_eq!(m, "Error interno de base de datos"),
        _ => panic!("expected a failure body"),
    }
}
