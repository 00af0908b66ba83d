//! The protocol server: what it answers to, and how it introduces itself.
pub mod addresses;
pub mod answer_laws;
pub mod headers;
pub mod route_laws;
pub mod routes;
