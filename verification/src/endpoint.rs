//! Client-facing service that accepts prompts over a streaming connection.

pub mod cfg;
pub mod handlers;
pub mod publish;
pub mod subscribe;
