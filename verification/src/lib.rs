//! Protocol logic of the Moli browser: routing of DevTools frontends, the
//! projection of Browser Core authority onto protocol-side slots, and the
//! scheduling decisions around navigation and protocol output.
//!
//! Sockets, timers and the Browser Core itself stay outside; this crate holds
//! what they decide with.
pub mod addresses;
pub mod command;
pub mod command_laws;
pub mod connection;
pub mod devtools;
pub mod facts;
pub mod host;
pub mod json;
pub mod lists;
pub mod routing;
pub mod scheduler;
pub mod server;
pub mod tables;
pub mod text;
