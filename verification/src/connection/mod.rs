//! The connection: its physical slots, held against Browser Core's registries.
pub mod access_laws;
pub mod agreement;
pub mod background_output;
pub mod browser_facts;
pub mod context_laws;
pub mod contexts;
pub mod core_record;
pub mod endings;
pub mod errors;
pub mod laws;
pub mod lifecycle;
pub mod loaded_page;
pub mod lookup_laws;
pub mod navigation;
pub mod page_laws;
pub mod pages;
pub mod sessions;
pub mod slots;
pub mod snapshots;
pub mod state;
pub mod targets;
pub mod terminations;
pub mod turn_executor;
