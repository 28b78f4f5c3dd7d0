//! Creating a delivery: the delivery and the event that announces it are
//! written in one transaction.
//!
//! The script is: open a transaction, insert the delivery in `PREPARING`,
//! queue `orders.delivery_created` with the order and the new delivery's
//! identifier, commit. Whatever goes wrong before the commit leads to a
//! rollback, so that neither row is kept.

use crate::error::Error;
use crate::events::{DeliveryCreatedEvent, OutboundEvent};
use crate::models::{CreateDeliveryEntity, DeliveryEntity};
use crate::storage::{Command, Reply, Step};
use vstd::prelude::*;

verus! {

/// How far the creation of one delivery has come.
#[derive(Debug, PartialEq, Eq)]
pub enum Creation {
    /// Waiting for the transaction to open.
    Opening { new: CreateDeliveryEntity },
    /// Waiting for the delivery to be inserted.
    Inserting { order_id: i32 },
    /// Waiting for the event to be queued.
    Announcing { delivery: DeliveryEntity },
    /// Waiting for the commit.
    Committing { delivery: DeliveryEntity },
    /// Waiting for the rollback after `error`.
    Aborting { error: Error },
    /// Finished.
    Closed,
}

impl Creation {
    /// The event that announces the delivery `delivery_id` of order `order_id`.
    pub open spec fn announcement(order_id: i32, delivery_id: u128) -> OutboundEvent {
        OutboundEvent::DeliveryCreated(DeliveryCreatedEvent { order_id, delivery_id })
    }

    /// The state and first step of creating a delivery for order `order_id`
    /// to `delivery_address`.
    pub open spec fn started(order_id: i32, delivery_address: serde_json::Value) -> (
        Creation,
        Step<DeliveryEntity>,
    ) {
        (
            Creation::Opening { new: CreateDeliveryEntity::starting(order_id, delivery_address) },
            Step::Run(Command::Begin),
        )
    }

    /// The state and step that follow when the storage layer answers `reply`.
    pub open spec fn next(self, reply: Reply) -> (Creation, Step<DeliveryEntity>) {
        match self {
            Creation::Opening { new } => match reply {
                Reply::Begun => (
                    Creation::Inserting { order_id: new.order_id },
                    Step::Run(Command::InsertDelivery(new)),
                ),
                _ => (Creation::Closed, Step::Done(Err(Error::PersistenceError))),
            },
            Creation::Inserting { order_id } => match reply {
                Reply::DeliveryInserted(delivery) => (
                    Creation::Announcing { delivery },
                    Step::Run(Command::WriteOutbox(Self::announcement(order_id, delivery.id))),
                ),
                _ => (
                    Creation::Aborting { error: Error::PersistenceError },
                    Step::Run(Command::Rollback),
                ),
            },
            Creation::Announcing { delivery } => match reply {
                Reply::OutboxWritten(_) => (
                    Creation::Committing { delivery },
                    Step::Run(Command::Commit),
                ),
                _ => (
                    Creation::Aborting { error: Error::PersistenceError },
                    Step::Run(Command::Rollback),
                ),
            },
            Creation::Committing { delivery } => match reply {
                Reply::Committed => (Creation::Closed, Step::Done(Ok(delivery))),
                _ => (Creation::Closed, Step::Done(Err(Error::PersistenceError))),
            },
            Creation::Aborting { error } => (Creation::Closed, Step::Done(Err(error))),
            Creation::Closed => (Creation::Closed, Step::Halt),
        }
    }

    /// How many replies the script can still take before it is finished.
    pub open spec fn remaining(self) -> nat {
        match self {
            Creation::Opening { .. } => 5,
            Creation::Inserting { .. } => 4,
            Creation::Announcing { .. } => 3,
            Creation::Committing { .. } => 2,
            Creation::Aborting { .. } => 2,
            Creation::Closed => 1,
        }
    }

    /// Starts creating a delivery for order `order_id` to `delivery_address`.
    pub fn start(order_id: i32, delivery_address: serde_json::Value) -> (r: (
        Creation,
        Step<DeliveryEntity>,
    ))
        ensures
            r == Self::started(order_id, delivery_address),
    {
        (
            Creation::Opening { new: CreateDeliveryEntity::new(order_id, delivery_address) },
            Step::Run(Command::Begin),
        )
    }

    /// Takes the reply to the last command and says what comes next.
    pub fn step(self, reply: Reply) -> (r: (Creation, Step<DeliveryEntity>))
        ensures
            r == self.next(reply),
    {
        match self {
            Creation::Opening { new } => match reply {
                Reply::Begun => (
                    Creation::Inserting { order_id: new.order_id },
                    Step::Run(Command::InsertDelivery(new)),
                ),
                _ => (Creation::Closed, Step::Done(Err(Error::PersistenceError))),
            },
            Creation::Inserting { order_id } => match reply {
                Reply::DeliveryInserted(delivery) => {
                    let event = OutboundEvent::DeliveryCreated(
                        DeliveryCreatedEvent { order_id, delivery_id: delivery.id },
                    );
                    (Creation::Announcing { delivery }, Step::Run(Command::WriteOutbox(event)))
                },
                _ => (
                    Creation::Aborting { error: Error::PersistenceError },
                    Step::Run(Command::Rollback),
                ),
            },
            Creation::Announcing { delivery } => match reply {
                Reply::OutboxWritten(_) => (
                    Creation::Committing { delivery },
                    Step::Run(Command::Commit),
                ),
                _ => (
                    Creation::Aborting { error: Error::PersistenceError },
                    Step::Run(Command::Rollback),
                ),
            },
            Creation::Committing { delivery } => match reply {
                Reply::Committed => (Creation::Closed, Step::Done(Ok(delivery))),
                _ => (Creation::Closed, Step::Done(Err(Error::PersistenceError))),
            },
            Creation::Aborting { error } => (Creation::Closed, Step::Done(Err(error))),
            Creation::Closed => (Creation::Closed, Step::Halt),
        }
    }
}

/// The delivery is inserted right after the transaction was opened, with the
/// columns that the script was started with, and at no other point; those
/// columns hold the order and address of the request and `PREPARING`.
pub proof fn inserts_in_preparing(state: Creation, reply: Reply, new: CreateDeliveryEntity)
    ensures
        state.next(reply).1 == Step::<DeliveryEntity>::Run(Command::InsertDelivery(new)) <==> ({
            &&& state == (Creation::Opening { new })
            &&& reply is Begun
        }),
        Creation::started(new.order_id, new.delivery_address).0 == (Creation::Opening {
            new: CreateDeliveryEntity::starting(new.order_id, new.delivery_address),
        }),
{
}

/// `orders.delivery_created` is queued right after the delivery was inserted,
/// with the order of the request and the identifier that the delivery was
/// given, and at no other point.
pub proof fn announcement_follows_insert(state: Creation, reply: Reply, event: OutboundEvent)
    ensures
        state.next(reply).1 == Step::<DeliveryEntity>::Run(Command::WriteOutbox(event)) <==> ({
            &&& state matches Creation::Inserting { order_id }
            &&& reply matches Reply::DeliveryInserted(delivery)
            &&& event == Creation::announcement(order_id, delivery.id)
        }),
{
}

/// The commit is asked for only when the event is queued, and the script
/// succeeds only when the commit is confirmed; it then returns the delivery
/// as it was inserted.
pub proof fn commit_follows_announcement(state: Creation, reply: Reply, delivery: DeliveryEntity)
    ensures
        state.next(reply).1 == Step::<DeliveryEntity>::Run(Command::Commit) <==> (
        state is Announcing && reply is OutboxWritten),
        state.next(reply).1 == Step::Done(Ok::<DeliveryEntity, Error>(delivery)) <==> ({
            &&& state == (Creation::Committing { delivery })
            &&& reply is Committed
        }),
{
}

/// Whatever goes wrong between the opening of the transaction and its commit
/// is answered with a rollback, and the script then fails.
pub proof fn failure_rolls_back(state: Creation, reply: Reply, answer: Reply)
    ensures
        state.next(reply).1 == Step::<DeliveryEntity>::Run(Command::Rollback) <==> ({
            ||| (state is Inserting && !(reply is DeliveryInserted))
            ||| (state is Announcing && !(reply is OutboxWritten))
        }),
        state.next(reply).1 == Step::<DeliveryEntity>::Run(Command::Rollback) ==> state.next(
            reply,
        ).0.next(answer).1 == Step::<DeliveryEntity>::Done(Err(Error::PersistenceError)),
{
}

/// Every step brings the script nearer its end, so a driver that answers
/// each command comes to a result.
pub proof fn script_advances(state: Creation, reply: Reply)
    ensures
        state.next(reply).1 is Run ==> state.next(reply).0.remaining() < state.remaining(),
        !(state.next(reply).1 is Run) ==> state.next(reply).0 is Closed,
{
}

} // verus!
