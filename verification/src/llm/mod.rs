//! Model calls: failures, results, costs and the schedule that they follow.

pub mod accounting;
pub mod diagnostics;
pub mod failure;
pub mod gateway;
pub mod machine;
pub mod results;
pub mod results_laws;
pub mod scheduler;
pub mod scheduler_laws;
pub mod wire;
pub mod wire_laws;
