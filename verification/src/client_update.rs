//! The notification that is pushed to subscribers.

use crate::error::AppError;
use vstd::prelude::*;

verus! {

/// `serde_json::Value`, a JSON document. The payload of a notification and
/// the snapshots are values of this type; they are carried through as they
/// come, and nothing is read of what they hold.
#[verifier::external_type_specification]
#[verifier::external_body]
pub struct ExJsonValue(serde_json::Value);

/// Tag of a notification: one per polled entity type, plus one for failures.
#[derive(Debug, Clone, Copy, PartialEq, Eq, Structural)]
pub enum UpdateEventType {
    PlayersGraph,
    Servers,
    Error,
}

/// A notification as it is pushed to subscribers.
#[derive(Debug)]
pub struct UpdateResponseBody {
    pub code: u16,
    pub message: String,
    pub data: Option<serde_json::Value>,
    pub event: UpdateEventType,
}

/// What a notification says: its status, its text, its payload and its tag.
pub struct Envelope {
    pub code: u16,
    pub message: Seq<char>,
    pub data: Option<serde_json::Value>,
    pub event: UpdateEventType,
}

impl View for UpdateResponseBody {
    type V = Envelope;

    open spec fn view(&self) -> Envelope {
        Envelope { code: self.code, message: self.message@, data: self.data, event: self.event }
    }
}

impl UpdateResponseBody {
    /// The notification with this status, text, payload and tag.
    pub fn new(
        code: u16,
        message: &str,
        data: Option<serde_json::Value>,
        event: UpdateEventType,
    ) -> (body: Self)
        ensures
            body@ == (Envelope { code, message: message@, data, event }),
    {
        UpdateResponseBody { code, message: message.to_owned(), data, event }
    }

    /// The notification that reports a failure: its status and text, no
    /// payload, tagged as an error.
    pub fn err(e: &AppError) -> (body: Self)
        ensures
            body@ == (Envelope {
                code: e.status(),
                message: e.text(),
                data: None,
                event: UpdateEventType::Error,
            }),
    {
        UpdateResponseBody {
            code: e.status_code(),
            message: e.message(),
            data: None,
            event: UpdateEventType::Error,
        }
    }
}

} // verus!
