//! Browser facts: what Browser Core says happened, and one frontend's cursor
//! over it.
pub mod errors;
pub mod fact_laws;
pub mod laws;
pub mod model;
pub mod projector;
pub mod texts;
pub mod types;
