//! Agents: turns, their control and their closing; actions, and an agent made of them.

pub mod action;
pub mod action_laws;
pub mod consume;
pub mod control;
pub mod driver;
pub mod driver_laws;
pub mod machine;
pub mod reference;
pub mod reference_laws;
pub mod reference_report;
pub mod registry;
pub mod turn;
pub mod waiting;
