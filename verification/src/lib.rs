//! A small user directory service: the entity and its transfer shapes, the
//! pagination arithmetic, identifier handling, the request handlers' decisions
//! and an in-memory table that states what the storage operations mean.

pub mod handlers;
pub mod ident;
pub mod laws;
pub mod models;
pub mod pagination;
pub mod routes;
pub mod stats;
pub mod table;
