//! Verified decision core of an agent runtime.
//!
//! Every module is a set of plain values and functions over them: what may be
//! admitted, what a budget still allows, which evidence closes a turn. Clocks,
//! locks, sockets, files and executors belong to the host, which hands the
//! results of its work in as arguments and performs what comes back.

pub mod agent;
pub mod budget;
pub mod context;
pub mod generation;
pub mod generation_laws;
pub mod generation_shape;
pub mod harness;
pub mod id;
pub mod json;
pub mod json_laws;
pub mod json_reading;
pub mod lifecycle;
pub mod llm;
pub mod record;
pub mod session;
pub mod store;
pub mod task;
pub mod text;
pub mod text_order;
pub mod time;
pub mod tool;
