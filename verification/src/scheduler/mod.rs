//! The scheduler of one DevTools Host: what runs next, and in what order its
//! protocol output leaves.
pub mod barrier;
pub mod commands;
pub mod course_laws;
pub mod dispatch;
pub mod execution;
pub mod fences;
pub mod gate;
pub mod ingress;
pub mod inputs;
pub mod laws;
pub mod lifecycle_wait;
pub mod output;
pub mod owner_laws;
pub mod pending;
pub mod progress;
pub mod publications;
pub mod residences;
pub mod runs;
pub mod screencast;
pub mod screencast_laws;
pub mod state;
pub mod stream_laws;
pub mod turn_laws;
pub mod wait_laws;
pub mod waits;
