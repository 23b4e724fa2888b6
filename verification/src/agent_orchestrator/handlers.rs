//! The health probe.

use vstd::prelude::*;
use crate::json::{json_quoted, object1, quote, spec_object1};

verus! {

/// What the health probe answers.
#[derive(Debug, Clone, PartialEq, Eq)]
pub struct HealthResponse {
    /// `"ok"` while the service runs.
    pub status: &'static str,
}

impl HealthResponse {
    /// The answer as JSON text: `{"status":..}`.
    pub fn to_json(&self) -> (text: String)
        ensures
            text@ == spec_object1("status"@, json_quoted(self.status@)),
    {
        let status = quote(self.status);
        object1("status", status.as_str())
    }
}

/// The answer to a health probe: HTTP status 200 with the status `ok`.
pub fn health() -> (answer: (u16, HealthResponse))
    ensures
        answer.0 == 200,
        answer.1.status@ == "ok"@,
{
    (200, HealthResponse { status: "ok" })
}

} // verus!
