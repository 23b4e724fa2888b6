//! What the service does for a connected client.

pub use crate::prompt::{handle_prompt_internal, PromptRequest, PromptResponse};
pub use crate::session::{ClientFrame, Session, SessionAction, SessionState};
