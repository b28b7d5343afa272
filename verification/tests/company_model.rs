//! The company entity's own lifecycle rules, apart from any store.

use companies_api::companies::models::{Company, CompanyRequest, CompanyRow};

#[test]
fn a_new_company_is_blank_with_equal_timestamps() {
    let c = Company::new("Acme".to_string());
    assert_eq!(c.name, "Acme");
    assert_eq!(c.id.chars().count(), 36);
    assert!(c.cif_number.is_none());
    assert!(c.billing_address.is_none());
    assert!(c.postal_code.is_none());
    assert_eq!(c.created_at, c.updated_at);
}

#[test]
fn renaming_touches_nothing_but_name_and_update_instant() {
    let mut c = Company::new("Acme".to_string());
    let id = c.id.clone();
    let created = c.created_at;
    c.update("Acme Corp".to_string());
    assert_eq!(c.name, "Acme Corp");
    assert_eq!(c.id, id);
    assert_eq!(c.created_at, created);
    assert!(c.cif_number.is_none());
}

#[test]
fn a_duplicated_company_gets_a_fresh_identity_and_the_copy_marker() {
    let mut c = Company::new("Acme".to_string());
    c.city = Some("Bilbao".to_string());
    c.cif_number = Some("B1".to_string());
    let d = c.duplicate();
    assert_eq!(d.name, "Acme (copia)");
    assert_ne!(d.id, c.id);
    // the business key is never copied; a caller synthesizes a new one
    assert!(d.cif_number.is_none());
    assert_eq!(d.city.as_deref(), Some("Bilbao"));
    assert_eq!(d.created_at, d.updated_at);
}

#[test]
fn a_create_request_becomes_the_company_it_describes() {
    let req = CompanyRequest {
        name: "Acme".to_string(),
        cif_number: Some("B2".to_string()),
        billing_address: None,
        postal_code: Some(48001),
        city: None,
        province: Some("Bizkaia".to_string()),
        industry: None,
        industry_sub_category: None,
    };
    let c = req.to_company();
    assert_eq!(c.name, "Acme");
    assert_eq!(c.cif_number.as_deref(), Some("B2"));
    assert_eq!(c.postal_code, Some(48001));
    assert_eq!(c.province.as_deref(), Some("Bizkaia"));
    assert_eq!(c.created_at, c.updated_at);
    assert_eq!(c.id.chars().count(), 36);
}

#[test]
fn a_relational_row_maps_column_for_column() {
    let row = CompanyRow {
        id: "row-1".to_string(),
        name: "Acme".to_string(),
        cif_number: Some("B3".to_string()),
        billing_address: Some("Calle Mayor 1".to_string()),
        postal_code: None,
        city: Some("Madrid".to_string()),
        province: None,
        industry: Some("Energy".to_string()),
        industry_sub_category: None,
        created_at: 11,
        updated_at: 22,
    };
    let c = Company::from_row(row);
    assert_eq!(c.id, "row-1");
    assert_eq!(c.cif_number.as_deref(), Some("B3"));
    assert_eq!(c.industry.as_deref(), Some("Energy"));
    assert_eq!(c.created_at, 11);
    assert_eq!(c.updated_at, 22);
}
