//! Verified core of a Discord slash-command bot that answers through a
//! language-model messages API.
//!
//! The library holds the bot's decisions and data shaping: request signature
//! checking, interaction routing, conversation-history handling, the shape of
//! the messages sent to the messages API, and the bookkeeping of the context-file
//! manager. Network, file and process work is left to the caller.

pub mod text;
pub mod discord;
pub mod callback;
pub mod claude;
pub mod context_files;
