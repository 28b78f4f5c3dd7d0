//! Moving a delivery to another status: the status, the audit line and, on
//! arrival, the event that announces it are written in one transaction.
//!
//! The script is: check that the requested status is one of the three; open a
//! transaction; under the sequential policy read the delivery and check the
//! move; set the status; append the audit line; on `DELIVERED` queue
//! `orders.delivery_success` with the delivery's order; commit. A request that
//! names no status is turned down before storage is touched, and whatever goes
//! wrong inside the transaction leads to a rollback.

use crate::error::Error;
use crate::events::{DeliverySuccessEvent, OutboundEvent};
use crate::models::{CreateDeliveryLogEntity, DeliveryEntity, DeliveryLogEntity};
use crate::status::{DeliveryStatus, TransitionPolicy};
use crate::storage::{Command, Reply, Step};
use vstd::prelude::*;

verus! {

/// A request to move a delivery: the name of the status and a free text for
/// the audit trail.
#[derive(Debug, PartialEq, Eq)]
pub struct UpdateDeliveryStateReq {
    pub status: String,
    pub description: String,
}

/// What a transition returns: the delivery as it now stands and the audit
/// line that was appended.
#[derive(Debug, PartialEq, Eq)]
pub struct UpdateDeliveryStateRes {
    pub updated_delivery: DeliveryEntity,
    pub delivery_log: DeliveryLogEntity,
}

/// How far the transition of one delivery has come.
#[derive(Debug, PartialEq, Eq)]
pub enum Transition {
    /// Waiting for the transaction to open.
    Opening { id: u128, target: DeliveryStatus, description: String, policy: TransitionPolicy },
    /// Waiting for the delivery to be read.
    Loading { id: u128, target: DeliveryStatus, description: String, policy: TransitionPolicy },
    /// Waiting for the status to be set.
    Updating { target: DeliveryStatus, description: String },
    /// Waiting for the audit line to be appended.
    Logging { delivery: DeliveryEntity },
    /// Waiting for the event to be queued.
    Announcing { delivery: DeliveryEntity, log: DeliveryLogEntity },
    /// Waiting for the commit.
    Committing { delivery: DeliveryEntity, log: DeliveryLogEntity },
    /// Waiting for the rollback after `error`.
    Aborting { error: Error },
    /// Finished.
    Closed,
}

impl Transition {
    /// The event that announces the arrival of the delivery of order `order_id`.
    pub open spec fn announcement(order_id: i32) -> OutboundEvent {
        OutboundEvent::DeliverySuccess(DeliverySuccessEvent { order_id })
    }

    /// The state and first step of moving the delivery `id` as `body` asks.
    pub open spec fn started(id: u128, body: UpdateDeliveryStateReq, policy: TransitionPolicy) -> (
        Transition,
        Step<UpdateDeliveryStateRes>,
    ) {
        match DeliveryStatus::named(body.status@) {
            None => (Transition::Closed, Step::Done(Err(Error::InvalidTransition))),
            Some(target) => (
                Transition::Opening { id, target, description: body.description, policy },
                Step::Run(Command::Begin),
            ),
        }
    }

    /// The state and step that follow when the storage layer answers `reply`.
    pub open spec fn next(self, reply: Reply) -> (Transition, Step<UpdateDeliveryStateRes>) {
        match self {
            Transition::Opening { id, target, description, policy } => match reply {
                Reply::Begun => if policy.reads_current() {
                    (
                        Transition::Loading { id, target, description, policy },
                        Step::Run(Command::LoadDelivery(id)),
                    )
                } else {
                    (
                        Transition::Updating { target, description },
                        Step::Run(Command::UpdateStatus { id, status: target }),
                    )
                },
                _ => (Transition::Closed, Step::Done(Err(Error::PersistenceError))),
            },
            Transition::Loading { id, target, description, policy } => match reply {
                Reply::DeliveryLoaded(current) => if policy.permits(current.status, target) {
                    (
                        Transition::Updating { target, description },
                        Step::Run(Command::UpdateStatus { id, status: target }),
                    )
                } else {
                    Self::abort(Error::InvalidTransition)
                },
                Reply::DeliveryMissing => Self::abort(Error::NotFound),
                _ => Self::abort(Error::PersistenceError),
            },
            Transition::Updating { target, description } => match reply {
                Reply::DeliveryUpdated(delivery) => (
                    Transition::Logging { delivery },
                    Step::Run(
                        Command::InsertLog(
                            CreateDeliveryLogEntity {
                                delivery_id: delivery.id,
                                description,
                                status: target,
                            },
                        ),
                    ),
                ),
                Reply::DeliveryMissing => Self::abort(Error::NotFound),
                _ => Self::abort(Error::PersistenceError),
            },
            Transition::Logging { delivery } => match reply {
                Reply::LogInserted(log) => if delivery.status.terminal() {
                    (
                        Transition::Announcing { delivery, log },
                        Step::Run(Command::WriteOutbox(Self::announcement(delivery.order_id))),
                    )
                } else {
                    (Transition::Committing { delivery, log }, Step::Run(Command::Commit))
                },
                _ => Self::abort(Error::PersistenceError),
            },
            Transition::Announcing { delivery, log } => match reply {
                Reply::OutboxWritten(_) => (
                    Transition::Committing { delivery, log },
                    Step::Run(Command::Commit),
                ),
                _ => Self::abort(Error::PersistenceError),
            },
            Transition::Committing { delivery, log } => match reply {
                Reply::Committed => (
                    Transition::Closed,
                    Step::Done(
                        Ok(UpdateDeliveryStateRes { updated_delivery: delivery, delivery_log: log }),
                    ),
                ),
                _ => (Transition::Closed, Step::Done(Err(Error::PersistenceError))),
            },
            Transition::Aborting { error } => (Transition::Closed, Step::Done(Err(error))),
            Transition::Closed => (Transition::Closed, Step::Halt),
        }
    }

    /// How many replies the script can still take before it is finished.
    pub open spec fn remaining(self) -> nat {
        match self {
            Transition::Opening { .. } => 7,
            Transition::Loading { .. } => 6,
            Transition::Updating { .. } => 5,
            Transition::Logging { .. } => 4,
            Transition::Announcing { .. } => 3,
            Transition::Committing { .. } => 2,
            Transition::Aborting { .. } => 2,
            Transition::Closed => 1,
        }
    }

    /// The state and step that abandon the transaction because of `error`.
    pub open spec fn abort(error: Error) -> (Transition, Step<UpdateDeliveryStateRes>) {
        (Transition::Aborting { error }, Step::Run(Command::Rollback))
    }

    /// Starts moving the delivery `id` as `body` asks, under `policy`.
    pub fn start(id: u128, body: UpdateDeliveryStateReq, policy: TransitionPolicy) -> (r: (
        Transition,
        Step<UpdateDeliveryStateRes>,
    ))
        ensures
            r == Self::started(id, body, policy),
    {
        match DeliveryStatus::parse(body.status.as_str()) {
            None => (Transition::Closed, Step::Done(Err(Error::InvalidTransition))),
            Some(target) => (
                Transition::Opening { id, target, description: body.description, policy },
                Step::Run(Command::Begin),
            ),
        }
    }

    /// Takes the reply to the last command and says what comes next.
    pub fn step(self, reply: Reply) -> (r: (Transition, Step<UpdateDeliveryStateRes>))
        ensures
            r == self.next(reply),
    {
        match self {
            Transition::Opening { id, target, description, policy } => match reply {
                Reply::Begun => if policy.needs_current() {
                    (
                        Transition::Loading { id, target, description, policy },
                        Step::Run(Command::LoadDelivery(id)),
                    )
                } else {
                    (
                        Transition::Updating { target, description },
                        Step::Run(Command::UpdateStatus { id, status: target }),
                    )
                },
                _ => (Transition::Closed, Step::Done(Err(Error::PersistenceError))),
            },
            Transition::Loading { id, target, description, policy } => match reply {
                Reply::DeliveryLoaded(current) => if policy.allows(current.status, target) {
                    (
                        Transition::Updating { target, description },
                        Step::Run(Command::UpdateStatus { id, status: target }),
                    )
                } else {
                    Self::give_up(Error::InvalidTransition)
                },
                Reply::DeliveryMissing => Self::give_up(Error::NotFound),
                _ => Self::give_up(Error::PersistenceError),
            },
            Transition::Updating { target, description } => match reply {
                Reply::DeliveryUpdated(delivery) => {
                    let line = CreateDeliveryLogEntity {
                        delivery_id: delivery.id,
                        description,
                        status: target,
                    };
                    (Transition::Logging { delivery }, Step::Run(Command::InsertLog(line)))
                },
                Reply::DeliveryMissing => Self::give_up(Error::NotFound),
                _ => Self::give_up(Error::PersistenceError),
            },
            Transition::Logging { delivery } => match reply {
                Reply::LogInserted(log) => if delivery.status.is_terminal() {
                    let event = OutboundEvent::DeliverySuccess(
                        DeliverySuccessEvent { order_id: delivery.order_id },
                    );
                    (
                        Transition::Announcing { delivery, log },
                        Step::Run(Command::WriteOutbox(event)),
                    )
                } else {
                    (Transition::Committing { delivery, log }, Step::Run(Command::Commit))
                },
                _ => Self::give_up(Error::PersistenceError),
            },
            Transition::Announcing { delivery, log } => match reply {
                Reply::OutboxWritten(_) => (
                    Transition::Committing { delivery, log },
                    Step::Run(Command::Commit),
                ),
                _ => Self::give_up(Error::PersistenceError),
            },
            Transition::Committing { delivery, log } => match reply {
                Reply::Committed => (
                    Transition::Closed,
                    Step::Done(
                        Ok(UpdateDeliveryStateRes { updated_delivery: delivery, delivery_log: log }),
                    ),
                ),
                _ => (Transition::Closed, Step::Done(Err(Error::PersistenceError))),
            },
            Transition::Aborting { error } => (Transition::Closed, Step::Done(Err(error))),
            Transition::Closed => (Transition::Closed, Step::Halt),
        }
    }

    fn give_up(error: Error) -> (r: (Transition, Step<UpdateDeliveryStateRes>))
        ensures
            r == Self::abort(error),
    {
        (Transition::Aborting { error }, Step::Run(Command::Rollback))
    }
}

/// The status is set only in a transaction that was opened for it, and under
/// the sequential policy only after the delivery was read and the move found
/// permitted.
pub proof fn sets_only_permitted_status(
    state: Transition,
    reply: Reply,
    id: u128,
    status: DeliveryStatus,
)
    ensures
        state.next(reply).1 == Step::<UpdateDeliveryStateRes>::Run(
            Command::UpdateStatus { id, status },
        ) <==> ({
            ||| ({
                &&& state matches Transition::Opening { id: i, target, policy, .. }
                &&& i == id
                &&& target == status
                &&& !policy.reads_current()
                &&& reply is Begun
            })
            ||| ({
                &&& state matches Transition::Loading { id: i, target, policy, .. }
                &&& i == id
                &&& target == status
                &&& reply matches Reply::DeliveryLoaded(current)
                &&& policy.permits(current.status, status)
            })
        }),
{
}

/// The audit line is asked for right after the status was set, with the new
/// status and the description of the request, and at no other point.
pub proof fn line_follows_update(state: Transition, reply: Reply, line: CreateDeliveryLogEntity)
    ensures
        state.next(reply).1 == Step::<UpdateDeliveryStateRes>::Run(Command::InsertLog(line))
            <==> ({
            &&& state matches Transition::Updating { target, description }
            &&& reply matches Reply::DeliveryUpdated(delivery)
            &&& line == (CreateDeliveryLogEntity {
                delivery_id: delivery.id,
                description,
                status: target,
            })
        }),
{
}

/// `orders.delivery_success` is queued when the audit line of a delivery that
/// has arrived is in place, for that delivery's order, and at no other point.
pub proof fn success_follows_arrival(state: Transition, reply: Reply, event: OutboundEvent)
    ensures
        state.next(reply).1 == Step::<UpdateDeliveryStateRes>::Run(Command::WriteOutbox(event))
            <==> ({
            &&& state matches Transition::Logging { delivery }
            &&& delivery.status.terminal()
            &&& reply is LogInserted
            &&& event == Transition::announcement(delivery.order_id)
        }),
{
}

/// The commit is asked for when everything is written: after the audit line
/// of a delivery that has not arrived, or after the event of one that has.
pub proof fn commit_follows_writes(state: Transition, reply: Reply)
    ensures
        state.next(reply).1 == Step::<UpdateDeliveryStateRes>::Run(Command::Commit) <==> ({
            ||| ({
                &&& state matches Transition::Logging { delivery }
                &&& !delivery.status.terminal()
                &&& reply is LogInserted
            })
            ||| (state is Announcing && reply is OutboxWritten)
        }),
{
}

/// The script succeeds only when the commit is confirmed, and then returns
/// the delivery as it was updated and the audit line as it was inserted.
pub proof fn succeeds_on_commit_only(state: Transition, reply: Reply, res: UpdateDeliveryStateRes)
    ensures
        state.next(reply).1 == Step::Done(Ok::<UpdateDeliveryStateRes, Error>(res)) <==> ({
            &&& state == (Transition::Committing {
                delivery: res.updated_delivery,
                log: res.delivery_log,
            })
            &&& reply is Committed
        }),
{
}

/// Every step brings the script nearer its end, so a driver that answers
/// each command comes to a result.
pub proof fn script_advances(state: Transition, reply: Reply)
    ensures
        state.next(reply).1 is Run ==> state.next(reply).0.remaining() < state.remaining(),
        !(state.next(reply).1 is Run) ==> state.next(reply).0 is Closed,
{
}

} // verus!
