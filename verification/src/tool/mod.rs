//! Tools, their calls and what comes of them.

pub mod binding;
pub mod control;
pub mod control_laws;
pub mod failure;
pub mod machine;
pub mod recovery;
pub mod recovery_laws;
pub mod registry;
pub mod registry_laws;
pub mod schema;
pub mod semantic;
pub mod semantic_laws;
pub mod vocabulary;
