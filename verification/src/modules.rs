//! Module composition: backend selection under an explicit fallback
//! policy, the module lifecycle phases, and the registry that merges
//! every module surface into one application.
//!
//! A module binds exactly one backend at construction and never
//! rebinds.  Construction attempts the durable backend when a
//! connection string is configured; on failure the configured policy
//! decides between degrading to the in-memory store and failing the
//! whole startup.

use vstd::prelude::*;
use crate::companies::memory::MemoryCompanyRepository;
use crate::error::AppError;
use crate::routes::{companies_route_table, companies_routes_spec, Route, worktypes_route_table, worktypes_routes_spec};

verus! {

/// The backend a module binds: the in-process store, or the durable
/// relational store reached through the given connection string.
pub enum RepositoryProvider {
    Memory,
    Postgres(String),
}

/// What a module does when the durable backend cannot be reached at
/// construction: degrade to the in-memory store, or fail startup.
#[derive(Clone, Copy, PartialEq, Eq, Structural, Debug)]
pub enum FallbackPolicy {
    FallbackToMemory,
    FailOnUnavailable,
}

/// The lifecycle of a module: selection happens once, and a bound
/// module stays bound for the life of the process.
#[derive(Clone, Copy, PartialEq, Eq, Structural, Debug)]
pub enum ModulePhase {
    Uninitialized,
    Selecting,
    Bound,
    Ready,
    FailedInit,
}

/// What happens to a module during construction.
#[derive(Clone, Copy, PartialEq, Eq, Structural, Debug)]
pub enum ModuleEvent {
    StartSelection,
    BackendBound,
    BindingFailed,
    Serve,
}

/// The lifecycle transition relation: `Ready` and `FailedInit` are
/// terminal, and nothing leaves `Bound` but serving.
pub open spec fn spec_phase_step(phase: ModulePhase, event: ModuleEvent) -> ModulePhase {
    match (phase, event) {
        (ModulePhase::Uninitialized, ModuleEvent::StartSelection) => ModulePhase::Selecting,
        (ModulePhase::Selecting, ModuleEvent::BackendBound) => ModulePhase::Bound,
        (ModulePhase::Selecting, ModuleEvent::BindingFailed) => ModulePhase::FailedInit,
        (ModulePhase::Bound, ModuleEvent::Serve) => ModulePhase::Ready,
        (p, _) => p,
    }
}

/// Advances the module lifecycle.
pub fn phase_step(phase: ModulePhase, event: ModuleEvent) -> (next: ModulePhase)
    ensures
        next == spec_phase_step(phase, event),
{
    match (phase, event) {
        (ModulePhase::Uninitialized, ModuleEvent::StartSelection) => ModulePhase::Selecting,
        (ModulePhase::Selecting, ModuleEvent::BackendBound) => ModulePhase::Bound,
        (ModulePhase::Selecting, ModuleEvent::BindingFailed) => ModulePhase::FailedInit,
        (ModulePhase::Bound, ModuleEvent::Serve) => ModulePhase::Ready,
        (p, _) => p,
    }
}

/// Once a module is `Ready` (or has failed), no event rebinds or
/// revives it: the bound backend is fixed for the process lifetime.
pub proof fn lemma_bound_is_permanent(event: ModuleEvent)
    ensures
        spec_phase_step(ModulePhase::Ready, event) == ModulePhase::Ready,
        spec_phase_step(ModulePhase::FailedInit, event) == ModulePhase::FailedInit,
{
}

/// The backend a module binds, decided from the configuration, the
/// outcome of the schema-ensure attempt, and the fallback policy:
/// no connection string means the in-memory store; a reachable,
/// provisioned durable store is always taken; an unreachable one
/// either degrades to memory or fails startup, per policy — never
/// both, never silently.
pub fn bind_backend(
    policy: FallbackPolicy,
    database_url: &Option<String>,
    ensure_ok: bool,
    detail: &str,
) -> (r: Result<RepositoryProvider, AppError>)
    ensures
        (database_url is None ==> (r matches Ok(p) && p matches RepositoryProvider::Memory)),
        (ensure_ok ==> (database_url matches Some(url) ==> (r matches Ok(p) && (
        p matches RepositoryProvider::Postgres(u) && u@ == url@)))),
        ((database_url is Some && !ensure_ok && policy == FallbackPolicy::FallbackToMemory) ==> (
        r matches Ok(p) && p matches RepositoryProvider::Memory)),
        ((database_url is Some && !ensure_ok && policy == FallbackPolicy::FailOnUnavailable) ==> (
        r matches Err(e) && (e matches AppError::Internal(m) && m@
            == "Problem connecting to PostgreSQL. Error: "@ + detail@))),
{
    match database_url {
        None => Ok(RepositoryProvider::Memory),
        Some(url) => {
            if ensure_ok {
                Ok(RepositoryProvider::Postgres(url.clone()))
            } else {
                match policy {
                    FallbackPolicy::FallbackToMemory => Ok(RepositoryProvider::Memory),
                    FallbackPolicy::FailOnUnavailable => Err(
                        AppError::Internal(
                            String::from_str("Problem connecting to PostgreSQL. Error: ").concat(
                                detail,
                            ),
                        ),
                    ),
                }
            }
        }
    }
}

/// The companies module: one bound backend, the in-process store it
/// owns when that backend is the memory one, and its route surface.
pub struct CompaniesModule {
    pub provider: RepositoryProvider,
    pub store: MemoryCompanyRepository,
    pub phase: ModulePhase,
}

impl CompaniesModule {
    /// Binds the module to the backend selection once, with an empty
    /// in-process store.
    pub fn new(provider: RepositoryProvider) -> (m: CompaniesModule)
        ensures
            m.provider == provider,
            m.store@.len() == 0,
            m.store.wf(),
            m.phase == ModulePhase::Bound,
    {
        CompaniesModule {
            provider,
            store: MemoryCompanyRepository::new(),
            phase: ModulePhase::Bound,
        }
    }

    /// The routes this module serves.
    pub fn routes(&self) -> (r: Vec<Route>)
        ensures
            r@.map_values(|x: Route| x@) == companies_routes_spec(),
    {
        companies_route_table()
    }
}

/// The work-types module: its backend is always the durable store,
/// and construction fails when that store cannot be reached.
pub struct WorktypesModule {
    pub provider: RepositoryProvider,
    pub phase: ModulePhase,
}

impl WorktypesModule {
    /// Binds the module to the backend selection once.
    pub fn new(provider: RepositoryProvider) -> (m: WorktypesModule)
        ensures
            m.provider == provider,
            m.phase == ModulePhase::Bound,
    {
        WorktypesModule { provider, phase: ModulePhase::Bound }
    }

    /// The routes this module serves.
    pub fn routes(&self) -> (r: Vec<Route>)
        ensures
            r@.map_values(|x: Route| x@) == worktypes_routes_spec(),
    {
        worktypes_route_table()
    }
}

/// The composition root: holds every constructed module and exposes
/// their route surfaces.
pub struct ModuleRegistry {
    pub companies_module: CompaniesModule,
}

impl ModuleRegistry {
    /// Registers the constructed modules.  Construction is
    /// fail-fast: a module whose policy is fatal fails before any
    /// registry exists, so a registry only ever holds bound modules.
    pub fn new(companies_module: CompaniesModule) -> (r: ModuleRegistry)
        ensures
            r.companies_module == companies_module,
    {
        ModuleRegistry { companies_module }
    }

    /// The registered companies module.
    pub fn companies(&self) -> (m: &CompaniesModule)
        ensures
            m == &self.companies_module,
    {
        &self.companies_module
    }

    /// The merged route surface of the companies module.
    pub fn companies_routes(&self) -> (r: Vec<Route>)
        ensures
            r@.map_values(|x: Route| x@) == companies_routes_spec(),
    {
        self.companies_module.routes()
    }
}

} // verus!
