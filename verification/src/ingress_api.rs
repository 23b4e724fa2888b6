//! Client-facing service that accepts prompts and relays bus events to its
//! clients.

pub mod cfg;
pub mod handlers;
pub mod publish;
pub mod subscribe;
