//! What a model is shown: conversations projected from logs, contexts built within a
//! token budget, and views of tools and results.

pub mod budgeting;
pub mod builder;
pub mod builder_laws;
pub mod content;
pub mod content_laws;
pub mod projector;
pub mod projector_laws;
pub mod result_text;
pub mod result_text_laws;
pub mod viewing;
pub mod views;
pub mod vocabulary;
