//! A single-table category store with a verified in-memory model, together
//! with the `Crud` contract that every persisted entity must honor.

pub mod category;
pub mod crud;
pub mod laws;
pub mod model;
pub mod store;
