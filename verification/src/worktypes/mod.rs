//! The work-types capability: entity model, request shapes, the
//! grouping step of the relational listing, and handlers.

pub mod assemble;
pub mod models;
pub mod handlers;
pub mod requests;
pub mod sql;
