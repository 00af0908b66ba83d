//! The DevTools Host: one owner loop that serves requests of frontends.
pub mod host_laws;
pub mod requests;
pub mod retry;
pub mod service;
