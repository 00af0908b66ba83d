//! Routing between the frontends of one browser and its shared protocol
//! connection.
pub mod frontend_laws;
pub mod laws;
pub mod message_laws;
pub mod model;
pub mod state;
