//! An HTTP-triggered CRUD service for issues: request routing, the issue
//! persistence rules, and the uniform JSON envelope of every reply.
pub mod dispatch;
pub mod errors;
pub mod laws;
pub mod models;
pub mod persistence;
pub mod response;
pub mod routes;
pub mod table;
pub mod text;
