//! The companies capability: entity model, repositories and handlers.

pub mod handlers;
pub mod memory;
pub mod models;
pub mod orm;
pub mod sql;
