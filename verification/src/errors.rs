//! The error kinds a request can fail with.
//!
//! Every stage of the per-request pipeline aborts with exactly one of these
//! kinds; nothing is retried internally.

use vstd::prelude::*;

verus! {

/// The failure kind of a pipeline stage.
#[derive(Clone, Copy, Debug, PartialEq, Eq, Structural)]
pub enum ProcessingError {
    /// The envelope's topic differs from the topic the route is bound to.
    TopicMismatch,
    /// The payload misses a required field or a field has the wrong type.
    DecodeError,
    /// A referenced user, owned address or the vendor address is absent.
    NotFound,
    /// A store write failed.
    PersistenceError,
    /// The downstream publish call failed.
    PublishError,
}

impl ProcessingError {
    /// A short description of the error kind.
    pub fn message(&self) -> (r: &'static str)
        ensures
            r@ == self.spec_message(),
    {
        match self {
            ProcessingError::TopicMismatch => "envelope topic does not match the bound topic",
            ProcessingError::DecodeError => "event payload could not be decoded",
            ProcessingError::NotFound => "a required entity was not found",
            ProcessingError::PersistenceError => "a store write failed",
            ProcessingError::PublishError => "the downstream publish failed",
        }
    }

    /// What `message` returns for each kind.
    pub open spec fn spec_message(&self) -> Seq<char> {
        match self {
            ProcessingError::TopicMismatch => "envelope topic does not match the bound topic"@,
            ProcessingError::DecodeError => "event payload could not be decoded"@,
            ProcessingError::NotFound => "a required entity was not found"@,
            ProcessingError::PersistenceError => "a store write failed"@,
            ProcessingError::PublishError => "the downstream publish failed"@,
        }
    }
}

} // verus!
