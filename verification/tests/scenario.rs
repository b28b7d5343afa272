//! The end-to-end lifecycle of a company, driven through the
//! handlers exactly as the HTTP surface would drive them.

use companies_api::companies::handlers::{
    create_company, duplicate_company, get_company, list_companies, update_company, ApiBody,
};
use companies_api::companies::memory::MemoryCompanyRepository;
use companies_api::companies::models::{Company, CompanyRequest};
use companies_api::error::AppError;

fn request(name: &str) -> CompanyRequest {
    CompanyRequest {
        name: name.to_string(),
        cif_number: None,
        billing_address: None,
        postal_code: None,
        city: None,
        province: None,
        industry: None,
        industry_sub_category: None,
    }
}

fn entity(body: ApiBody) -> Company {
    match body {
        ApiBody::Company(c) => c,
        _ => panic!("expected one entity"),
    }
}

#[test]
fn company_lifecycle_over_http_statuses() {
    let mut repo = MemoryCompanyRepository::new();

    // POST /companies {"name":"Acme"} -> 201
    let (status, body) = create_company(repo.create(request("Acme"), 1000));
    assert_eq!(status, 201);
    let created = entity(body);
    assert!(!created.id.is_empty());
    assert!(created.cif_number.clone().unwrap().starts_with("CIF-"));
    assert_eq!(created.created_at, created.updated_at);

    // PUT /companies/{id} {"name":"Acme Corp"} -> 200
    let (status, body) = update_company(&created.id, repo.update(&created.id, request("Acme Corp"), 2000));
    assert_eq!(status, 200);
    let updated = entity(body);
    assert_eq!(updated.name, "Acme Corp");
    assert_eq!(updated.cif_number, created.cif_number);
    assert!(updated.created_at < updated.updated_at);

    // POST /companies/{id}/duplicate -> 201
    let (status, body) = duplicate_company(&created.id, repo.duplicate(&created.id, 3000));
    assert_eq!(status, 201);
    let copy = entity(body);
    assert_eq!(copy.name, "Acme Corp (copia)");
    assert_ne!(copy.id, created.id);
    assert_ne!(copy.cif_number, updated.cif_number);

    // GET /companies/does-not-exist -> 404 with an error body
    let (status, body) = get_company("does-not-exist", repo.get("does-not-exist"));
    assert_eq!(status, 404);
    match body {
        ApiBody::Failure(msg) => {
            assert_eq!(msg, "Compañía con ID does-not-exist no encontrada");
        }
        _ => panic!("expected a failure body"),
    }
}

#[test]
fn test_list_companies() {
    let mut repo = MemoryCompanyRepository::new();
    repo.create(request("Test Company"), 1).unwrap();
    let (status, body) = list_companies(repo.list(None));
    assert_eq!(status, 200);
    match body {
        ApiBody::Companies(cs) => assert_eq!(cs.len(), 1),
        _ => panic!("expected a listing"),
    }
}

#[test]
fn test_create_company() {
    let mut repo = MemoryCompanyRepository::new();
    let (status, _) = create_company(repo.create(request("Test Company"), 1));
    assert_eq!(status, 201);
}

#[test]
fn storage_failure_is_reported_not_hidden() {
    let outcome: Result<Vec<Company>, AppError> =
        Err(AppError::Database("connection refused".to_string()));
    let (status, body) = list_companies(outcome);
    assert_eq!(status, 500);
    match body {
        ApiBody::Failure(msg) => {
            // the driver detail never reaches a client
            assert_eq!(msg, "Error interno de base de datos");
        }
        _ => panic!("expected a failure body"),
    }
}
