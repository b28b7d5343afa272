//! Composition: configuration resolution, backend selection under
//! both fallback policies, the module lifecycle, route merging, the
//! failure taxonomy, and identifier synthesis.

use companies_api::config::{parse_port, resolve_config, DEFAULT_PORT};
use companies_api::error::AppError;
use companies_api::companies::models::Company;
use companies_api::ids::{distinct_from, leading_segment};
use companies_api::modules::{
    bind_backend, phase_step, CompaniesModule, FallbackPolicy, ModuleEvent, ModulePhase,
    ModuleRegistry, RepositoryProvider, WorktypesModule,
};
use companies_api::companies::orm::ORMPostgresRepository;
use companies_api::companies::sql::like_pattern;
use companies_api::routes::{companies_route_table, merge_route_sets, worktypes_route_table, Verb};

#[test]
fn port_text_parses_or_falls_back() {
    assert_eq!(parse_port("8080"), Some(8080));
    assert_eq!(parse_port("+123"), Some(123));
    assert_eq!(parse_port("0"), Some(0));
    assert_eq!(parse_port("65535"), Some(65535));
    assert_eq!(parse_port("65536"), None);
    assert_eq!(parse_port("123456789"), None);
    assert_eq!(parse_port(""), None);
    assert_eq!(parse_port("+"), None);
    assert_eq!(parse_port("80a"), None);
    assert_eq!(parse_port("-1"), None);
}

#[test]
fn configuration_resolves_with_default_port() {
    let c = resolve_config(Some("postgres://localhost/app".to_string()), None);
    assert_eq!(c.port, DEFAULT_PORT);
    assert_eq!(c.database_url.as_deref(), Some("postgres://localhost/app"));
    let c = resolve_config(None, Some("8088".to_string()));
    assert_eq!(c.port, 8088);
    assert!(c.database_url.is_none());
    let c = resolve_config(None, Some("eighty".to_string()));
    assert_eq!(c.port, 3000);
}

#[test]
fn no_connection_string_binds_the_memory_backend() {
    let bound = bind_backend(FallbackPolicy::FailOnUnavailable, &None, false, "").unwrap();
    assert!(matches!(bound, RepositoryProvider::Memory));
}

#[test]
fn reachable_store_binds_the_relational_backend() {
    let url = Some("postgres://localhost/app".to_string());
    let bound = bind_backend(FallbackPolicy::FailOnUnavailable, &url, true, "").unwrap();
    match bound {
        RepositoryProvider::Postgres(u) => assert_eq!(u, "postgres://localhost/app"),
        RepositoryProvider::Memory => panic!("expected the relational backend"),
    }
}

#[test]
fn unreachable_store_degrades_or_fails_per_policy() {
    let url = Some("postgres://localhost/app".to_string());
    let degraded =
        bind_backend(FallbackPolicy::FallbackToMemory, &url, false, "refused").unwrap();
    assert!(matches!(degraded, RepositoryProvider::Memory));

    let fatal = bind_backend(FallbackPolicy::FailOnUnavailable, &url, false, "refused");
    match fatal {
        Err(AppError::Internal(msg)) => {
            assert_eq!(msg, "Problem connecting to PostgreSQL. Error: refused");
        }
        _ => panic!("expected a fatal initialization failure"),
    }
}

#[test]
fn lifecycle_reaches_ready_and_never_rebinds() {
    let mut phase = ModulePhase::Uninitialized;
    phase = phase_step(phase, ModuleEvent::StartSelection);
    assert_eq!(phase, ModulePhase::Selecting);
    phase = phase_step(phase, ModuleEvent::BackendBound);
    assert_eq!(phase, ModulePhase::Bound);
    phase = phase_step(phase, ModuleEvent::Serve);
    assert_eq!(phase, ModulePhase::Ready);
    for e in [
        ModuleEvent::StartSelection,
        ModuleEvent::BackendBound,
        ModuleEvent::BindingFailed,
        ModuleEvent::Serve,
    ] {
        assert_eq!(phase_step(ModulePhase::Ready, e), ModulePhase::Ready);
        assert_eq!(phase_step(ModulePhase::FailedInit, e), ModulePhase::FailedInit);
    }
    assert_eq!(
        phase_step(ModulePhase::Selecting, ModuleEvent::BindingFailed),
        ModulePhase::FailedInit
    );
}

#[test]
fn module_route_tables_merge_without_collision() {
    let companies = companies_route_table();
    assert_eq!(companies.len(), 5);
    assert_eq!(companies[0].path, "/companies");
    assert_eq!(companies[4].path, "/companies/{id}/duplicate");
    let worktypes = worktypes_route_table();
    assert_eq!(worktypes.len(), 2);
    assert_eq!(worktypes[0].path, "/worktypes");

    let merged = merge_route_sets(&companies, &worktypes).unwrap();
    assert_eq!(merged.len(), 7);
}

#[test]
fn a_route_collision_fails_loudly() {
    let a = companies_route_table();
    let b = companies_route_table();
    match merge_route_sets(&a, &b) {
        Err(AppError::Internal(_)) => {}
        _ => panic!("expected a loud configuration failure"),
    }
    // disjoint verbs on one path do not collide
    let gets: Vec<_> = companies_route_table()
        .into_iter()
        .filter(|r| matches!(r.verb, Verb::Get))
        .collect();
    let posts: Vec<_> = companies_route_table()
        .into_iter()
        .filter(|r| matches!(r.verb, Verb::Post))
        .collect();
    assert!(merge_route_sets(&gets, &posts).is_ok());
}

#[test]
fn registry_exposes_the_companies_surface() {
    let module = CompaniesModule::new(RepositoryProvider::Memory);
    assert_eq!(module.phase, ModulePhase::Bound);
    let registry = ModuleRegistry::new(module);
    assert_eq!(registry.companies_routes().len(), 5);
    let worktypes = WorktypesModule::new(RepositoryProvider::Memory);
    assert_eq!(worktypes.routes().len(), 2);
}

#[test]
fn failure_taxonomy_maps_to_statuses_and_public_messages() {
    let nf = AppError::NotFound("missing".to_string());
    assert_eq!(nf.status_code(), 404);
    assert_eq!(nf.public_message(), "missing");
    let v = AppError::Validation("bad field".to_string());
    assert_eq!(v.status_code(), 400);
    assert_eq!(v.public_message(), "bad field");
    let db = AppError::Database("SELECT went wrong".to_string());
    assert_eq!(db.status_code(), 500);
    assert_eq!(db.public_message(), "Error interno de base de datos");
    let orm = AppError::Orm("pool dead".to_string());
    assert_eq!(orm.status_code(), 500);
    assert_eq!(orm.public_message(), "Error interno de base de datos");
    let i = AppError::Internal("boom".to_string());
    assert_eq!(i.status_code(), 500);
    assert_eq!(i.public_message(), "Error interno del servidor");
    assert_eq!(AppError::NotImplemented.status_code(), 500);
    assert_eq!(AppError::NotImplemented.public_message(), "Error interno del servidor");
}

#[test]
fn stubbed_orm_backend_reports_not_implemented() {
    let repo = ORMPostgresRepository {};
    assert!(matches!(repo.list(None), Err(AppError::NotImplemented)));
    assert!(matches!(repo.get("x"), Err(AppError::NotImplemented)));
    assert!(matches!(repo.duplicate("x"), Err(AppError::NotImplemented)));
}

#[test]
fn fresh_identifiers_are_hyphenated_uuids() {
    let a = Company::new("x".to_string());
    let b = Company::new("x".to_string());
    assert_eq!(a.id.chars().count(), 36);
    assert_ne!(a.id, b.id);
    let seg = leading_segment(&a.id);
    assert_eq!(seg.chars().count(), 8);
    assert!(!seg.contains('-'));
}

#[test]
fn leading_segment_stops_at_the_first_dash() {
    assert_eq!(leading_segment("abc-def-g"), "abc");
    assert_eq!(leading_segment("abcdef"), "abcdef");
    assert_eq!(leading_segment("-abc"), "");
}

#[test]
fn a_taken_candidate_is_extended_until_distinct() {
    let pool = vec!["CIF-1".to_string(), "CIF-12".to_string()];
    let kept = distinct_from("CIF-7".to_string(), &pool);
    assert_eq!(kept, "CIF-7");
    let moved = distinct_from("CIF-1".to_string(), &pool);
    assert_ne!(moved, "CIF-1");
    assert_ne!(moved, "CIF-12");
    assert!(moved.starts_with("CIF-1"));
    assert!(moved.chars().count() > "CIF-12".chars().count());
}

#[test]
fn like_pattern_wraps_the_filter_in_wildcards() {
    assert_eq!(like_pattern("acme"), "%acme%");
    assert_eq!(like_pattern(""), "%%");
}
