//! The model side: request shaping, reply handling, context and history.

pub mod types;
pub mod api;
pub mod context;
pub mod history;
