//! The conversation between a handler and the storage layer.
//!
//! A handler never touches storage itself. It issues one [`Command`] at a
//! time, and whoever drives it performs the command and hands back the
//! [`Reply`]. The same handler can so be driven against a database or against
//! the in-memory [`crate::store::Store`].

use crate::error::Error;
use crate::events::OutboundEvent;
use crate::models::{
    CreateDeliveryEntity, CreateDeliveryLogEntity, DeliveryEntity, DeliveryLogEntity,
};
use crate::outbox::OutboxEntry;
use crate::status::DeliveryStatus;
use vstd::prelude::*;

verus! {

/// What a handler asks the storage layer to do.
#[derive(Debug, PartialEq, Eq)]
pub enum Command {
    /// Open a transaction.
    Begin,
    /// Insert a delivery.
    InsertDelivery(CreateDeliveryEntity),
    /// Read the delivery with this identifier.
    LoadDelivery(u128),
    /// Set the status of the delivery with this identifier.
    UpdateStatus { id: u128, status: DeliveryStatus },
    /// Append a line to the audit trail.
    InsertLog(CreateDeliveryLogEntity),
    /// Queue an event in the outbox, as `PENDING`.
    WriteOutbox(OutboundEvent),
    /// Commit the open transaction.
    Commit,
    /// Abandon the open transaction.
    Rollback,
}

/// What the storage layer reports back.
#[derive(Debug, PartialEq, Eq)]
pub enum Reply {
    /// A transaction is open.
    Begun,
    /// The delivery was inserted; this is its row.
    DeliveryInserted(DeliveryEntity),
    /// The delivery was read; this is its row.
    DeliveryLoaded(DeliveryEntity),
    /// The status was set; this is the row as it now stands.
    DeliveryUpdated(DeliveryEntity),
    /// No delivery has the identifier.
    DeliveryMissing,
    /// The audit line was appended; this is its row.
    LogInserted(DeliveryLogEntity),
    /// The event was queued; this is its entry.
    OutboxWritten(OutboxEntry),
    /// The transaction is committed.
    Committed,
    /// The transaction is abandoned.
    RolledBack,
    /// The command could not be carried out.
    Failed,
}

/// What a handler does next.
#[derive(Debug, PartialEq, Eq)]
pub enum Step<T> {
    /// Perform this command and report the reply.
    Run(Command),
    /// The handler is finished, with this result.
    Done(Result<T, Error>),
    /// The handler finished earlier; there is nothing left to do.
    Halt,
}

} // verus!
