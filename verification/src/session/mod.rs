//! Sessions: their events and the names under which they are stored.

pub mod commit;
pub mod error;
pub mod event;
pub mod file_name;
pub mod jsonl;
pub mod log;
pub mod log_laws;
pub mod model_record;
pub mod outcome_laws;
pub mod outcome_text;
pub mod tool_record;
