//! Stored data: the record types, the schema, and the values the queries
//! are built from. The queries themselves run in the application.

pub mod models;
pub mod schema;
pub mod query;
