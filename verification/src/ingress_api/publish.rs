//! What the service publishes on the bus.

pub use crate::prompt::{publish_prompt, PromptMessage};
