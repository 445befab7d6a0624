//! An event-ingestion library: named events with free-form detail text are
//! registered with a repository and listed back.

pub mod event;
pub mod ident;
pub mod store;
pub mod repository;
pub mod handlers;
