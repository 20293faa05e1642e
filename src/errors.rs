//! The failures shared by the parser, the router and the subscription protocol.
use vstd::prelude::*;
use crate::text::joined;

verus! {

/// What went wrong while subscribing, parsing a frame or storing a block.
#[derive(Debug, Clone, PartialEq, Eq)]
pub enum SubscriberError {
    /// The transport failed, or the validator answered unexpectedly.
    ConnError(String),
    /// A frame, a commit event or a state change could not be understood.
    EventParseError(String),
    /// The storage collaborator refused the block; holds its message.
    DBError(String),
}

impl SubscriberError {
    /// The text that the error stands for.
    pub open spec fn spec_message(&self) -> Seq<char> {
        match self {
            SubscriberError::ConnError(e) => "Error connecting to validator "@ + e@,
            SubscriberError::EventParseError(e) => "Error parsing event "@ + e@,
            SubscriberError::DBError(e) => "The database returned an error "@ + e@,
        }
    }

    /// A human-readable description of the error.
    pub fn message(&self) -> (r: String)
        ensures
            r@ == self.spec_message(),
    {
        match self {
            SubscriberError::ConnError(e) => joined("Error connecting to validator ", e.as_str()),
            SubscriberError::EventParseError(e) => joined("Error parsing event ", e.as_str()),
            SubscriberError::DBError(e) => joined("The database returned an error ", e.as_str()),
        }
    }
}

} // verus!
