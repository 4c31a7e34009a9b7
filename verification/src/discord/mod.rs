//! The Discord side: request signatures, interactions and webhook replies.

pub mod ed25519;
pub mod verify;
pub mod types;
pub mod interaction;
pub mod cgi;
pub mod webhook;
