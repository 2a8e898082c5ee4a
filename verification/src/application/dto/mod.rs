//! The values that callers hand to the use cases and get back.

use vstd::prelude::*;

verus! {

/// What a caller gives to have an account opened.
#[derive(Debug, PartialEq, Eq)]
pub struct CreateAccountRequest {
    pub name: String,
    pub currency: String,
}

/// A plain message, for use cases that have nothing else to answer.
#[derive(Debug, PartialEq, Eq)]
pub struct MessageResponse {
    pub message: String,
}

impl MessageResponse {
    /// A response that says `message`.
    pub fn new(message: impl Into<String>) -> (response: MessageResponse)
        ensures
            call_ensures(Into::<String>::into, (message,), response.message),
    {
        MessageResponse { message: message.into() }
    }
}

} // verus!
