//! The lifecycle of a delivery and of an outbox entry.

use crate::text::is_word;
use vstd::prelude::*;
use vstd::string::*;

verus! {

/// Where a delivery stands: `PREPARING`, then `EN_ROUTE`, then `DELIVERED`.
#[derive(Clone, Copy, Debug, PartialEq, Eq, Structural)]
pub enum DeliveryStatus {
    /// Assigned when the delivery is created.
    Preparing,
    /// The parcel has left.
    EnRoute,
    /// The parcel has arrived; nothing follows this state.
    Delivered,
}

impl DeliveryStatus {
    /// The name under which the status is stored and exchanged.
    pub open spec fn name(self) -> Seq<char> {
        match self {
            DeliveryStatus::Preparing => "PREPARING"@,
            DeliveryStatus::EnRoute => "EN_ROUTE"@,
            DeliveryStatus::Delivered => "DELIVERED"@,
        }
    }

    /// The status that `text` names, if it names one.
    pub open spec fn named(text: Seq<char>) -> Option<DeliveryStatus> {
        if text == "PREPARING"@ {
            Some(DeliveryStatus::Preparing)
        } else if text == "EN_ROUTE"@ {
            Some(DeliveryStatus::EnRoute)
        } else if text == "DELIVERED"@ {
            Some(DeliveryStatus::Delivered)
        } else {
            None
        }
    }

    /// Whether no transition leaves this status.
    pub open spec fn terminal(self) -> bool {
        self == DeliveryStatus::Delivered
    }

    /// The status that follows this one in the lifecycle.
    pub open spec fn successor(self) -> Option<DeliveryStatus> {
        match self {
            DeliveryStatus::Preparing => Some(DeliveryStatus::EnRoute),
            DeliveryStatus::EnRoute => Some(DeliveryStatus::Delivered),
            DeliveryStatus::Delivered => None,
        }
    }

    /// The name under which the status is stored and exchanged.
    pub fn as_str(self) -> (r: &'static str)
        ensures
            r@ == self.name(),
    {
        match self {
            DeliveryStatus::Preparing => "PREPARING",
            DeliveryStatus::EnRoute => "EN_ROUTE",
            DeliveryStatus::Delivered => "DELIVERED",
        }
    }

    /// Reads a status name; `None` for any text that is not one of the three.
    pub fn parse(text: &str) -> (r: Option<DeliveryStatus>)
        ensures
            r == Self::named(text@),
    {
        proof {
            reveal_strlit("PREPARING");
            reveal_strlit("EN_ROUTE");
            reveal_strlit("DELIVERED");
        }
        if is_word(text, "PREPARING") {
            Some(DeliveryStatus::Preparing)
        } else if is_word(text, "EN_ROUTE") {
            Some(DeliveryStatus::EnRoute)
        } else if is_word(text, "DELIVERED") {
            Some(DeliveryStatus::Delivered)
        } else {
            None
        }
    }

    /// Whether no transition leaves this status.
    pub fn is_terminal(self) -> (r: bool)
        ensures
            r == self.terminal(),
    {
        match self {
            DeliveryStatus::Delivered => true,
            _ => false,
        }
    }

    /// The status that follows this one in the lifecycle.
    pub fn next(self) -> (r: Option<DeliveryStatus>)
        ensures
            r == self.successor(),
    {
        match self {
            DeliveryStatus::Preparing => Some(DeliveryStatus::EnRoute),
            DeliveryStatus::EnRoute => Some(DeliveryStatus::Delivered),
            DeliveryStatus::Delivered => None,
        }
    }

    /// Every status reads back from its own name, and only from it.
    pub proof fn names_read_back(self, text: Seq<char>)
        ensures
            Self::named(self.name()) == Some(self),
            Self::named(text) == Some(self) <==> text == self.name(),
    {
        reveal_strlit("PREPARING");
        reveal_strlit("EN_ROUTE");
        reveal_strlit("DELIVERED");
        assert("EN_ROUTE"@[0] == 'E');
        assert("DELIVERED"@[0] == 'D');
    }
}

/// The text that tells a caller which statuses can be asked for.
pub open spec fn allowed_statuses_text() -> Seq<char> {
    "Allowed statuses are: "@ + DeliveryStatus::Preparing.name() + ", "@
        + DeliveryStatus::EnRoute.name() + ", "@ + DeliveryStatus::Delivered.name()
}

/// The text that tells a caller which statuses can be asked for.
pub fn allowed_statuses_message() -> (r: String)
    ensures
        r@ == allowed_statuses_text(),
{
    let mut out = String::from_str("Allowed statuses are: ");
    out.append(DeliveryStatus::Preparing.as_str());
    out.append(", ");
    out.append(DeliveryStatus::EnRoute.as_str());
    out.append(", ");
    out.append(DeliveryStatus::Delivered.as_str());
    out
}

/// Which moves between statuses a transition accepts.
#[derive(Clone, Copy, Debug, PartialEq, Eq, Structural)]
pub enum TransitionPolicy {
    /// Any of the three statuses may be set, whatever the current one is.
    AnyListed,
    /// Only the next status of the lifecycle may be set.
    Sequential,
}

impl TransitionPolicy {
    /// Whether a delivery in `from` may be set to `to`.
    pub open spec fn permits(self, from: DeliveryStatus, to: DeliveryStatus) -> bool {
        match self {
            TransitionPolicy::AnyListed => true,
            TransitionPolicy::Sequential => from.successor() == Some(to),
        }
    }

    /// Whether the policy needs the current status to decide.
    pub open spec fn reads_current(self) -> bool {
        self == TransitionPolicy::Sequential
    }

    /// Whether a delivery in `from` may be set to `to`.
    pub fn allows(self, from: DeliveryStatus, to: DeliveryStatus) -> (r: bool)
        ensures
            r == self.permits(from, to),
    {
        match self {
            TransitionPolicy::AnyListed => true,
            TransitionPolicy::Sequential => match from.next() {
                Some(s) => s == to,
                None => false,
            },
        }
    }

    /// Whether the policy needs the current status to decide.
    pub fn needs_current(self) -> (r: bool)
        ensures
            r == self.reads_current(),
    {
        match self {
            TransitionPolicy::AnyListed => false,
            TransitionPolicy::Sequential => true,
        }
    }
}

/// Whether an outbox entry still waits to be relayed.
#[derive(Clone, Copy, Debug, PartialEq, Eq, Structural)]
pub enum OutboxStatus {
    /// Written, not yet confirmed by the broker.
    Pending,
    /// Confirmed by the broker; kept for audit and replay.
    Sent,
}

impl OutboxStatus {
    /// The name under which the status is stored.
    pub open spec fn name(self) -> Seq<char> {
        match self {
            OutboxStatus::Pending => "PENDING"@,
            OutboxStatus::Sent => "SENT"@,
        }
    }

    /// The status that `text` names, if it names one.
    pub open spec fn named(text: Seq<char>) -> Option<OutboxStatus> {
        if text == "PENDING"@ {
            Some(OutboxStatus::Pending)
        } else if text == "SENT"@ {
            Some(OutboxStatus::Sent)
        } else {
            None
        }
    }

    /// The name under which the status is stored.
    pub fn as_str(self) -> (r: &'static str)
        ensures
            r@ == self.name(),
    {
        match self {
            OutboxStatus::Pending => "PENDING",
            OutboxStatus::Sent => "SENT",
        }
    }

    /// Reads a status name; `None` for any other text.
    pub fn parse(text: &str) -> (r: Option<OutboxStatus>)
        ensures
            r == Self::named(text@),
    {
        proof {
            reveal_strlit("PENDING");
            reveal_strlit("SENT");
        }
        if is_word(text, "PENDING") {
            Some(OutboxStatus::Pending)
        } else if is_word(text, "SENT") {
            Some(OutboxStatus::Sent)
        } else {
            None
        }
    }
}

} // verus!
