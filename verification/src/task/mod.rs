//! Tasks over many turns: what a history settles, snapshots and their stores.

pub mod coordinator;
pub mod coordinator_laws;
pub mod file;
pub mod history;
pub mod history_laws;
pub mod machine;
pub mod snapshot;
pub mod store;
