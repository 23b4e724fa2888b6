//! Service that takes prompts off the bus and reports progress.

pub mod cfg;
pub mod handlers;
pub mod llm;
pub mod publish;
pub mod subscribe;
