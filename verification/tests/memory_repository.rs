//! The in-memory repository against the repository contract.

use companies_api::companies::memory::MemoryCompanyRepository;
use companies_api::companies::models::CompanyRequest;

fn request(name: &str) -> CompanyRequest {
    CompanyRequest {
        name: name.to_string(),
        cif_number: None,
        billing_address: None,
        postal_code: None,
        city: None,
        province: None,
        industry: None,
        industry_sub_category: None,
    }
}

#[test]
fn create_assigns_identity_and_synthesizes_key() {
    let mut repo = MemoryCompanyRepository::new();
    let c = repo.create(request("Acme"), 1000).unwrap();
    assert_eq!(c.name, "Acme");
    assert_eq!(c.id.chars().count(), 36);
    let cif = c.cif_number.clone().unwrap();
    assert!(cif.starts_with("CIF-"));
    assert!(!cif.is_empty());
    assert_eq!(c.created_at, 1000);
    assert_eq!(c.updated_at, 1000);
    assert_eq!(repo.len(), 1);
}

#[test]
fn create_keeps_requested_business_key() {
    let mut repo = MemoryCompanyRepository::new();
    let mut req = request("Acme");
    req.cif_number = Some("B12345".to_string());
    let c = repo.create(req, 5).unwrap();
    assert_eq!(c.cif_number.as_deref(), Some("B12345"));
}

#[test]
fn get_finds_created_record() {
    let mut repo = MemoryCompanyRepository::new();
    let c = repo.create(request("Acme"), 5).unwrap();
    let found = repo.get(&c.id).unwrap().unwrap();
    assert_eq!(found.id, c.id);
    assert_eq!(found.name, "Acme");
}

#[test]
fn unknown_id_yields_empty_result_not_failure() {
    let mut repo = MemoryCompanyRepository::new();
    repo.create(request("Acme"), 5).unwrap();
    let got = repo.get("does-not-exist");
    assert!(matches!(got, Ok(None)));
    let updated = repo.update("does-not-exist", request("X"), 9);
    assert!(matches!(updated, Ok(None)));
    let duplicated = repo.duplicate("does-not-exist", 9);
    assert!(matches!(duplicated, Ok(None)));
    assert_eq!(repo.len(), 1);
}

#[test]
fn partial_update_preserves_omitted_fields() {
    let mut repo = MemoryCompanyRepository::new();
    let mut req = request("Acme");
    req.cif_number = Some("B9".to_string());
    req.city = Some("Bilbao".to_string());
    req.postal_code = Some(48001);
    let c = repo.create(req, 10).unwrap();

    let mut change = request("Acme Corp");
    change.province = Some("Bizkaia".to_string());
    let u = repo.update(&c.id, change, 20).unwrap().unwrap();

    assert_eq!(u.name, "Acme Corp");
    assert_eq!(u.province.as_deref(), Some("Bizkaia"));
    // omitted fields keep their stored values
    assert_eq!(u.cif_number.as_deref(), Some("B9"));
    assert_eq!(u.city.as_deref(), Some("Bilbao"));
    assert_eq!(u.postal_code, Some(48001));
    // the creation instant never moves; the update instant always does
    assert_eq!(u.created_at, 10);
    assert_eq!(u.updated_at, 20);
    assert_eq!(u.id, c.id);
}

#[test]
fn present_update_fields_replace_stored_values() {
    let mut repo = MemoryCompanyRepository::new();
    let mut req = request("Acme");
    req.city = Some("Bilbao".to_string());
    let c = repo.create(req, 10).unwrap();

    let mut change = request("Acme");
    change.city = Some("Madrid".to_string());
    let u = repo.update(&c.id, change, 20).unwrap().unwrap();
    assert_eq!(u.city.as_deref(), Some("Madrid"));
}

#[test]
fn duplicate_never_copies_business_key() {
    let mut repo = MemoryCompanyRepository::new();
    let mut req = request("Acme");
    req.cif_number = Some("B12345".to_string());
    req.billing_address = Some("Calle Mayor 1".to_string());
    let c = repo.create(req, 10).unwrap();

    let d = repo.duplicate(&c.id, 30).unwrap().unwrap();
    let new_key = d.cif_number.clone().unwrap();
    assert_ne!(new_key, "B12345");
    assert!(!new_key.is_empty());
    assert!(new_key.starts_with("CIF-"));
    assert_ne!(d.id, c.id);
    assert_eq!(d.name, "Acme (copia)");
    // all other fields are copied verbatim; both timestamps reset
    assert_eq!(d.billing_address.as_deref(), Some("Calle Mayor 1"));
    assert_eq!(d.created_at, 30);
    assert_eq!(d.updated_at, 30);
    assert_eq!(repo.len(), 2);
}

#[test]
fn name_filter_is_case_insensitive_substring() {
    let mut repo = MemoryCompanyRepository::new();
    repo.create(request("Acme Corp"), 1).unwrap();
    repo.create(request("acme industries"), 2).unwrap();
    repo.create(request("Globex"), 3).unwrap();

    let hits = repo.list(Some("ACME".to_string())).unwrap();
    assert_eq!(hits.len(), 2);
    assert_eq!(hits[0].name, "Acme Corp");
    assert_eq!(hits[1].name, "acme industries");

    let all = repo.list(None).unwrap();
    assert_eq!(all.len(), 3);

    let none = repo.list(Some("umbrella".to_string())).unwrap();
    assert!(none.is_empty());
}

#[test]
fn filter_matches_middle_of_name_in_any_case() {
    let mut repo = MemoryCompanyRepository::new();
    repo.create(request("Great ACME Works"), 1).unwrap();
    let hits = repo.list(Some("acme".to_string())).unwrap();
    assert_eq!(hits.len(), 1);
    assert_eq!(hits[0].name, "Great ACME Works");
}

#[test]
fn created_keys_stay_unique_across_duplicates() {
    let mut repo = MemoryCompanyRepository::new();
    let c = repo.create(request("Acme"), 1).unwrap();
    let d1 = repo.duplicate(&c.id, 2).unwrap().unwrap();
    let d2 = repo.duplicate(&c.id, 3).unwrap().unwrap();
    let k0 = c.cif_number.unwrap();
    let k1 = d1.cif_number.unwrap();
    let k2 = d2.cif_number.unwrap();
    assert_ne!(k0, k1);
    assert_ne!(k0, k2);
    assert_ne!(k1, k2);
    assert_ne!(d1.id, d2.id);
}
