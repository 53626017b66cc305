//! Budgets of a task: vocabulary, the model of the shared ledger, the ledger itself.

pub mod audit;
pub mod binding;
pub mod checkpoint;
pub mod execution;
pub mod execution_laws;
pub mod file;
pub mod grant;
pub mod grant_laws;
pub mod laws;
pub mod ledger;
pub mod model;
pub mod promises;
pub mod recovery;
pub mod restore;
pub mod sealed;
pub mod spending_laws;
pub mod vocabulary;
pub mod wording;
pub mod wording_laws;
