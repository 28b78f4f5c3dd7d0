//! The failures that the core reports.

use vstd::prelude::*;

verus! {

/// Why an operation of the core did not take effect.
#[derive(Clone, Copy, Debug, PartialEq, Eq, Structural)]
pub enum Error {
    /// The referenced delivery or outbox entry does not exist.
    NotFound,
    /// The requested status is not one a delivery may move to.
    InvalidTransition,
    /// An inbound message could not be decoded.
    MalformedPayload,
    /// The storage layer refused or lost a write.
    PersistenceError,
    /// The broker did not confirm an outbound message.
    PublishError,
}

impl Error {
    /// Whether trying again later can succeed without changing the request.
    pub open spec fn transient(self) -> bool {
        self == Error::PersistenceError || self == Error::PublishError
    }

    /// Whether trying again later can succeed without changing the request.
    pub fn is_transient(self) -> (r: bool)
        ensures
            r == self.transient(),
    {
        match self {
            Error::PersistenceError => true,
            Error::PublishError => true,
            _ => false,
        }
    }
}

} // verus!
