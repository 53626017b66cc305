//! Logs of lines in files, and who may work on them.

pub mod control;
pub mod lines;
