//! Progress events, as the service publishes them on the bus.

use vstd::prelude::*;
use crate::json::{json_quoted, object2, quote, spec_object2};

verus! {

/// Status of a progress event.
#[derive(Debug, Clone, Copy, PartialEq, Eq, Structural)]
pub enum ProgressStatus {
    SingleEvent,
    InProgress,
    Finished,
}

impl ProgressStatus {
    /// The status by name, as it stands on the wire.
    pub open spec fn spec_name(&self) -> Seq<char> {
        match self {
            ProgressStatus::SingleEvent => "SingleEvent"@,
            ProgressStatus::InProgress => "InProgress"@,
            ProgressStatus::Finished => "Finished"@,
        }
    }

    /// The status by name.
    pub fn name(&self) -> (name: &'static str)
        ensures
            name@ == self.spec_name(),
    {
        match self {
            ProgressStatus::SingleEvent => "SingleEvent",
            ProgressStatus::InProgress => "InProgress",
            ProgressStatus::Finished => "Finished",
        }
    }
}

/// Progress of a request, for the client-facing service to forward.
#[derive(Debug, Clone, PartialEq, Eq)]
pub struct ProgressData {
    /// Where the work stands.
    pub status: ProgressStatus,
    /// A line for the client.
    pub message: String,
}

impl View for ProgressData {
    type V = (ProgressStatus, Seq<char>);

    open spec fn view(&self) -> (ProgressStatus, Seq<char>) {
        (self.status, self.message@)
    }
}

/// A progress event on the wire: `{"status":..,"message":..}`, the status by
/// name.
pub open spec fn spec_progress_json(status: ProgressStatus, message: Seq<char>) -> Seq<char> {
    spec_object2("status"@, json_quoted(status.spec_name()), "message"@, json_quoted(message))
}

/// The body to publish for a progress event, as JSON text.
pub fn publish_progress(progress: &ProgressData) -> (body: String)
    ensures
        body@ == spec_progress_json(progress.status, progress.message@),
{
    let status = quote(progress.status.name());
    let message = quote(progress.message.as_str());
    object2("status", status.as_str(), "message", message.as_str())
}

} // verus!
