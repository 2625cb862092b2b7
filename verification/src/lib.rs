//! A user store and API: SQL statement builders with numbered placeholders,
//! typed user attributes, and the decisions of the user endpoints.
pub mod text;
pub mod criteria;
pub mod builder;
pub mod attributes;
pub mod runtime;
pub mod user;
pub mod user_table;
pub mod user_repo;
pub mod user_api;
pub mod context;
pub mod laws;
