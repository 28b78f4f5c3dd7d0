//! What becomes of a broker message once its handler is finished.
//!
//! Every message gets exactly one of two outcomes. It is acknowledged when
//! the handler's transaction committed. Otherwise it is left unacknowledged,
//! and the broker delivers it again by its own policy; the handler never
//! retries by itself.

use crate::error::Error;
use vstd::prelude::*;

verus! {

/// The outcome of one broker message.
#[derive(Debug, PartialEq, Eq)]
pub enum Settlement<T> {
    /// Acknowledge the message: its effects are committed.
    Acknowledge(T),
    /// Leave the message unacknowledged: nothing was committed.
    Leave(Error),
}

impl<T> Settlement<T> {
    /// The outcome that follows from the handler's result: acknowledged if
    /// and only if the handler succeeded.
    pub open spec fn of(outcome: Result<T, Error>) -> Settlement<T> {
        match outcome {
            Ok(value) => Settlement::Acknowledge(value),
            Err(error) => Settlement::Leave(error),
        }
    }

    /// Whether the message is acknowledged.
    pub open spec fn acknowledged(self) -> bool {
        self is Acknowledge
    }

    /// Whether delivering the message again can succeed: it was left for a
    /// fault that may pass, not for what it holds.
    pub open spec fn worth_redelivering(self) -> bool {
        self matches Settlement::Leave(error) && error.transient()
    }

    /// The outcome that follows from the handler's result.
    pub fn settle(outcome: Result<T, Error>) -> (r: Settlement<T>)
        ensures
            r == Self::of(outcome),
    {
        match outcome {
            Ok(value) => Settlement::Acknowledge(value),
            Err(error) => Settlement::Leave(error),
        }
    }

    /// Whether the message is acknowledged.
    pub fn is_acknowledged(&self) -> (r: bool)
        ensures
            r == self.acknowledged(),
    {
        match self {
            Settlement::Acknowledge(_) => true,
            Settlement::Leave(_) => false,
        }
    }

    /// Whether delivering the message again can succeed.
    pub fn is_worth_redelivering(&self) -> (r: bool)
        ensures
            r == self.worth_redelivering(),
    {
        match self {
            Settlement::Acknowledge(_) => false,
            Settlement::Leave(error) => error.is_transient(),
        }
    }
}

} // verus!
