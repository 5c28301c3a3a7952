use vstd::prelude::*;

use crate::ids::{is_random_uuid, random_uuid};

verus! {

#[verifier::external_type_specification]
#[verifier::external_body]
pub struct ExValue(serde_json::Value);

/// The default error response of the API: a message, an id that identifies
/// this occurrence, the HTTP status, and optional details.
pub struct ApplicationError {
    pub message: String,
    pub id: u128,
    pub status: u16,
    pub details: Option<serde_json::Value>,
}

impl ApplicationError {
    /// An error with the given message, a fresh random id, status 400 and no
    /// details. When the random source fails the id is the nil UUID, 0.
    pub fn new(message: &str) -> (r: Self)
        ensures
            r.message@ == message@,
            r.status == 400,
            r.details is None,
            r.id == 0 || is_random_uuid(r.id),
    {
        let id = match random_uuid() {
            Some(id) => id,
            None => 0,
        };
        ApplicationError { message: String::from_str(message), id, status: 400, details: None }
    }

    /// The same error with another status.
    pub fn with_status(self, status: u16) -> (r: Self)
        ensures
            r.status == status,
            r.message == self.message,
            r.id == self.id,
            r.details == self.details,
    {
        ApplicationError { status, ..self }
    }

    /// The same error with the given details.
    pub fn with_details(self, details: serde_json::Value) -> (r: Self)
        ensures
            r.details == Some(details),
            r.message == self.message,
            r.id == self.id,
            r.status == self.status,
    {
        ApplicationError { details: Some(details), ..self }
    }
}

} // verus!
