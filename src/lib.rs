//! Registry of network members and checkers, with quorum-based eviction of
//! checkers that their peers report as offline.
pub mod keys;
pub mod types;
pub mod error;
pub mod store;
pub mod state;
pub mod actor;
pub mod laws;
