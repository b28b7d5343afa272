//! A modular backend core for a small set of business entities
//! (companies and work-type definitions).
//!
//! Each capability is a module that binds one entity family to one
//! storage backend behind a common repository contract.  The crate
//! verifies the entity lifecycle rules (identifier generation,
//! business-key uniqueness, partial-update merges, duplication), the
//! in-memory reference repository, the row mapping and grouping logic
//! of the relational backend, the idempotent schema-provisioning step,
//! and the backend-selection policy.  Transport, JSON encoding and the
//! relational client live outside the library and hand it plain values.

pub mod companies;
pub mod config;
pub mod error;
pub mod ids;
pub mod modules;
pub mod offices;
pub mod provision;
pub mod routes;
pub mod text;
pub mod worktypes;
