//! The operations of the service run to their end against the in-memory
//! store: each drives its script command by command and returns the script's
//! result.

use crate::ack::Settlement;
use crate::consumer::{order_request, Consumer, ConsumerStep};
use crate::creation::Creation;
use crate::error::Error;
use crate::events::{delivery_created_topic, delivery_success_topic, DeliveryOrderRequestEvent};
use crate::models::{
    CreateDeliveryEntity, CreateDeliveryLogEntity, DeliveryEntity, DeliveryLogEntity, Stamp,
};
use crate::outbox::entries_on;
use crate::status::{DeliveryStatus, OutboxStatus, TransitionPolicy};
use crate::storage::{Command, Reply, Step};
use crate::store::{executed, Store, StoreView};
use crate::transition::{Transition, UpdateDeliveryStateReq, UpdateDeliveryStateRes};
use vstd::prelude::*;

verus! {

impl StoreView {
    /// Whether a delivery can be created under `stamp`: no transaction is
    /// open, the identifier is unused and the outbox can take an entry.
    pub open spec fn can_create(self, stamp: Stamp) -> bool {
        &&& self.staged is None
        &&& !self.committed.has_delivery(stamp.id)
        &&& self.committed.next_outbox_id() <= i32::MAX
    }

    /// Whether `after` is this store with the delivery `d` created for order
    /// `order_id` at `now`: the delivery is added, the outbox has one new
    /// `orders.delivery_created` entry for it, and nothing else has changed.
    pub open spec fn created(self, after: StoreView, d: DeliveryEntity, now: i64) -> bool {
        &&& after.staged is None
        &&& after.committed.deliveries == self.committed.deliveries.push(d)
        &&& after.committed.delivery_logs == self.committed.delivery_logs
        &&& self.committed.queues(after.committed, Creation::announcement(d.order_id, d.id), now)
    }

    /// Why the delivery `id` cannot be moved to `target` under `policy` and
    /// `stamp`, or `None` if it can.
    pub open spec fn refusal(
        self,
        id: u128,
        target: Option<DeliveryStatus>,
        policy: TransitionPolicy,
        stamp: Stamp,
    ) -> Option<Error> {
        match target {
            None => Some(Error::InvalidTransition),
            Some(t) => if self.staged is Some {
                Some(Error::PersistenceError)
            } else if !self.committed.has_delivery(id) {
                Some(Error::NotFound)
            } else if !policy.permits(self.committed.delivery(id).status, t) {
                Some(Error::InvalidTransition)
            } else if self.committed.has_log(stamp.id) {
                Some(Error::PersistenceError)
            } else if t.terminal() && self.committed.next_outbox_id() > i32::MAX {
                Some(Error::PersistenceError)
            } else {
                None
            },
        }
    }

    /// Whether `after` is this store with the delivery `id` moved to `target`
    /// under `stamp`, with `res` as the result: the delivery has the new
    /// status, the audit trail has one new line with the status and
    /// `description`, and the outbox has one new `orders.delivery_success`
    /// entry if the status is `DELIVERED` and is unchanged otherwise.
    pub open spec fn moved(
        self,
        after: StoreView,
        id: u128,
        target: DeliveryStatus,
        description: String,
        stamp: Stamp,
        res: UpdateDeliveryStateRes,
    ) -> bool {
        let before = self.committed;
        &&& after.staged is None
        &&& res.updated_delivery == before.delivery(id).moved_to(target, stamp.now)
        &&& res.delivery_log == DeliveryLogEntity::inserted(
            CreateDeliveryLogEntity { delivery_id: id, description, status: target },
            stamp,
        )
        &&& after.committed.deliveries == before.deliveries.update(
            before.delivery_at(id),
            res.updated_delivery,
        )
        &&& after.committed.delivery_logs == before.delivery_logs.push(res.delivery_log)
        &&& if target.terminal() {
            before.queues(
                after.committed,
                Transition::announcement(before.delivery(id).order_id),
                stamp.now,
            )
        } else {
            after.committed.outbox == before.outbox
        }
    }
}

/// Whether a transition that began on the store `start` has come to `state`
/// with `step` as its next step, the store now being `now`. It says, for each
/// state of the script, what has been written so far.
spec fn moving(
    start: StoreView,
    id: u128,
    target: Option<DeliveryStatus>,
    description: String,
    policy: TransitionPolicy,
    stamp: Stamp,
    state: Transition,
    step: Step<UpdateDeliveryStateRes>,
    now: StoreView,
) -> bool {
    let before = start.committed;
    let permitted = before.has_delivery(id) && policy.permits(
        before.delivery(id).status,
        target->0,
    );
    let line = CreateDeliveryLogEntity { delivery_id: id, description, status: target->0 };
    match state {
        Transition::Opening { id: i, target: t, description: d, policy: p } => {
            &&& target == Some(t)
            &&& i == id
            &&& d == description
            &&& p == policy
            &&& now == start
            &&& step == Step::<UpdateDeliveryStateRes>::Run(Command::Begin)
        },
        Transition::Loading { id: i, target: t, description: d, policy: p } => {
            &&& target == Some(t)
            &&& i == id
            &&& d == description
            &&& p == policy
            &&& policy.reads_current()
            &&& start.staged is None
            &&& now == start.stage(before)
            &&& step == Step::<UpdateDeliveryStateRes>::Run(Command::LoadDelivery(id))
        },
        Transition::Updating { target: t, description: d } => {
            &&& target == Some(t)
            &&& d == description
            &&& policy.reads_current() ==> permitted
            &&& start.staged is None
            &&& now == start.stage(before)
            &&& step == Step::<UpdateDeliveryStateRes>::Run(
                Command::UpdateStatus { id, status: t },
            )
        },
        Transition::Logging { delivery } => {
            &&& target is Some
            &&& permitted
            &&& start.staged is None
            &&& delivery == before.delivery(id).moved_to(target->0, stamp.now)
            &&& now == start.stage(before.with_status(id, target->0, stamp.now))
            &&& step == Step::<UpdateDeliveryStateRes>::Run(Command::InsertLog(line))
        },
        Transition::Announcing { delivery, log } => {
            &&& target is Some
            &&& permitted
            &&& start.staged is None
            &&& !before.has_log(stamp.id)
            &&& target->0.terminal()
            &&& delivery == before.delivery(id).moved_to(target->0, stamp.now)
            &&& log == DeliveryLogEntity::inserted(line, stamp)
            &&& now == start.stage(before.with_status(id, target->0, stamp.now).with_log(log))
            &&& step == Step::<UpdateDeliveryStateRes>::Run(
                Command::WriteOutbox(Transition::announcement(before.delivery(id).order_id)),
            )
        },
        Transition::Committing { delivery, log } => {
            &&& target is Some
            &&& start.refusal(id, target, policy, stamp) is None
            &&& now.staged matches Some(l)
            &&& now.committed == before
            &&& start.moved(
                StoreView::settle(l),
                id,
                target->0,
                description,
                stamp,
                UpdateDeliveryStateRes { updated_delivery: delivery, delivery_log: log },
            )
            &&& step == Step::<UpdateDeliveryStateRes>::Run(Command::Commit)
        },
        Transition::Aborting { error } => {
            &&& target is Some
            &&& start.staged is None
            &&& now.committed == before
            &&& start.refusal(id, target, policy, stamp) == Some(error)
            &&& step == Step::<UpdateDeliveryStateRes>::Run(Command::Rollback)
        },
        Transition::Closed => match step {
            Step::Done(Ok(res)) => {
                &&& target is Some
                &&& start.refusal(id, target, policy, stamp) is None
                &&& start.moved(now, id, target->0, description, stamp, res)
            },
            Step::Done(Err(e)) => start.refusal(id, target, policy, stamp) == Some(e) && now
                == start,
            _ => false,
        },
    }
}

/// Carrying out the next command of a transition and taking the reply keeps
/// the script and the store in step, and brings the script nearer its end.
proof fn moving_kept(
    start: StoreView,
    id: u128,
    target: Option<DeliveryStatus>,
    description: String,
    policy: TransitionPolicy,
    stamp: Stamp,
    state: Transition,
    cmd: Command,
    now: StoreView,
    reply: Reply,
    then: StoreView,
)
    requires
        start.wf(),
        now.wf(),
        moving(start, id, target, description, policy, stamp, state, Step::Run(cmd), now),
        executed(now, cmd, stamp, then, reply),
    ensures
        moving(
            start,
            id,
            target,
            description,
            policy,
            stamp,
            state.next(reply).0,
            state.next(reply).1,
            then,
        ),
        state.next(reply).0.remaining() < state.remaining(),
{
}

impl Store {
    fn perform<T>(&mut self, step: Step<T>, stamp: Stamp) -> (r: Result<Reply, Step<T>>)
        requires
            old(self).wf(),
        ensures
            final(self).wf(),
            old(self)@.committed.leads_to(final(self)@.committed),
            match r {
                Ok(reply) => step matches Step::Run(cmd) && executed(
                    old(self)@,
                    cmd,
                    stamp,
                    final(self)@,
                    reply,
                ),
                Err(s) => s == step && !(step is Run) && final(self)@ == old(self)@,
            },
    {
        proof {
            self@.committed.leads_to_itself();
        }
        match step {
            Step::Run(cmd) => Ok(self.execute(cmd, stamp)),
            other => Err(other),
        }
    }

    /// Creates a delivery for order `order_id` to `delivery_address`, under
    /// the identifier and time of `stamp`. The delivery starts in `PREPARING`
    /// and `orders.delivery_created` is queued with it, both or neither.
    /// Fails with `PersistenceError`, changing nothing, if a transaction is
    /// open, the identifier is in use or the outbox cannot take an entry.
    pub fn create(
        &mut self,
        order_id: i32,
        delivery_address: serde_json::Value,
        stamp: Stamp,
    ) -> (r: Result<DeliveryEntity, Error>)
        requires
            old(self).wf(),
        ensures
            final(self).wf(),
            old(self)@.committed.leads_to(final(self)@.committed),
            match r {
                Ok(d) => {
                    &&& old(self)@.can_create(stamp)
                    &&& d == DeliveryEntity::inserted(
                        CreateDeliveryEntity::starting(order_id, delivery_address),
                        stamp,
                    )
                    &&& old(self)@.created(final(self)@, d, stamp.now)
                },
                Err(e) => {
                    &&& e == Error::PersistenceError
                    &&& !old(self)@.can_create(stamp)
                    &&& final(self)@ == old(self)@
                },
            },
    {
        proof {
            self@.committed.leads_to_itself();
        }
        // The script ends within four commands: begin, insert, announce and
        // commit, or fewer and a rollback.
        let (state, step) = Creation::start(order_id, delivery_address);
        let ghost s0 = self@;
        let (state, step) = match self.perform(step, stamp) {
            Ok(reply) => state.step(reply),
            Err(step) => (state, step),
        };
        let ghost s1 = self@;
        let (state, step) = match self.perform(step, stamp) {
            Ok(reply) => state.step(reply),
            Err(step) => (state, step),
        };
        let ghost s2 = self@;
        let (state, step) = match self.perform(step, stamp) {
            Ok(reply) => state.step(reply),
            Err(step) => (state, step),
        };
        let ghost s3 = self@;
        let (state, step) = match self.perform(step, stamp) {
            Ok(reply) => state.step(reply),
            Err(step) => (state, step),
        };
        proof {
            s0.committed.leads_on(s1.committed, s2.committed);
            s0.committed.leads_on(s2.committed, s3.committed);
            s0.committed.leads_on(s3.committed, self@.committed);
        }
        match step {
            Step::Done(outcome) => outcome,
            _ => Err(Error::PersistenceError),
        }
    }

    /// Handles one message from `delivery.order_request` whose body decoded
    /// to `decoded`, or failed to decode if that is `None`, under the
    /// identifier and time of `stamp`. The message is acknowledged if and only
    /// if the delivery and its event were committed; otherwise nothing has
    /// changed and the message is left for redelivery, with
    /// `MalformedPayload` for an undecodable body and `PersistenceError` in
    /// the cases in which [`Store::create`] fails.
    pub fn consume(&mut self, decoded: Option<DeliveryOrderRequestEvent>, stamp: Stamp) -> (r:
        Settlement<DeliveryEntity>)
        requires
            old(self).wf(),
        ensures
            final(self).wf(),
            old(self)@.committed.leads_to(final(self)@.committed),
            match r {
                Settlement::Acknowledge(d) => {
                    &&& decoded matches Some(event)
                    &&& old(self)@.can_create(stamp)
                    &&& d == DeliveryEntity::inserted(
                        CreateDeliveryEntity::starting(event.order_id, event.delivery_address),
                        stamp,
                    )
                    &&& old(self)@.created(final(self)@, d, stamp.now)
                },
                Settlement::Leave(e) => {
                    &&& final(self)@ == old(self)@
                    &&& match decoded {
                        None => e == Error::MalformedPayload,
                        Some(_) => e == Error::PersistenceError && !old(self)@.can_create(stamp),
                    }
                },
            },
    {
        proof {
            self@.committed.leads_to_itself();
        }
        // A decoded message is settled within four commands, as a creation is.
        let (state, step) = order_request(decoded);
        let ghost s0 = self@;
        let (state, step) = self.serve(state, step, stamp);
        let ghost s1 = self@;
        let (state, step) = self.serve(state, step, stamp);
        let ghost s2 = self@;
        let (state, step) = self.serve(state, step, stamp);
        let ghost s3 = self@;
        let (state, step) = self.serve(state, step, stamp);
        proof {
            s0.committed.leads_on(s1.committed, s2.committed);
            s0.committed.leads_on(s2.committed, s3.committed);
            s0.committed.leads_on(s3.committed, self@.committed);
        }
        match step {
            ConsumerStep::Settle(settlement) => settlement,
            _ => Settlement::Leave(Error::PersistenceError),
        }
    }

    fn serve(&mut self, state: Consumer, step: ConsumerStep, stamp: Stamp) -> (r: (
        Consumer,
        ConsumerStep,
    ))
        requires
            old(self).wf(),
        ensures
            final(self).wf(),
            old(self)@.committed.leads_to(final(self)@.committed),
            match step {
                ConsumerStep::Run(cmd) => exists|reply: Reply|
                    executed(old(self)@, cmd, stamp, final(self)@, reply) && r == state.next(reply),
                _ => r == (state, step) && final(self)@ == old(self)@,
            },
    {
        proof {
            self@.committed.leads_to_itself();
        }
        match step {
            ConsumerStep::Run(cmd) => {
                let reply = self.execute(cmd, stamp);
                state.step(reply)
            },
            other => (state, other),
        }
    }

    /// Moves the delivery `id` to the status that `body` names, under
    /// `policy`, with the identifier and time of `stamp` for the audit line.
    /// The status, the audit line and, on `DELIVERED`, the queued
    /// `orders.delivery_success` are written together or not at all.
    ///
    /// Fails, changing nothing: with `InvalidTransition` if `body` names no
    /// status or the policy does not permit the move; with `NotFound` if
    /// there is no such delivery; with `PersistenceError` if a transaction is
    /// open, the audit line's identifier is in use or the outbox cannot take
    /// an entry.
    pub fn transition(
        &mut self,
        id: u128,
        body: UpdateDeliveryStateReq,
        policy: TransitionPolicy,
        stamp: Stamp,
    ) -> (r: Result<UpdateDeliveryStateRes, Error>)
        requires
            old(self).wf(),
        ensures
            final(self).wf(),
            old(self)@.committed.leads_to(final(self)@.committed),
            match r {
                Ok(res) => {
                    &&& DeliveryStatus::named(body.status@) matches Some(target)
                    &&& old(self)@.refusal(id, Some(target), policy, stamp) is None
                    &&& old(self)@.moved(final(self)@, id, target, body.description, stamp, res)
                },
                Err(e) => {
                    &&& old(self)@.refusal(id, DeliveryStatus::named(body.status@), policy, stamp)
                        == Some(e)
                    &&& final(self)@ == old(self)@
                },
            },
    {
        proof {
            self@.committed.leads_to_itself();
        }
        let ghost start = self@;
        let ghost target = DeliveryStatus::named(body.status@);
        let ghost description = body.description;
        let (mut state, mut step) = Transition::start(id, body, policy);
        loop
            invariant
                start == old(self)@,
                target == DeliveryStatus::named(body.status@),
                description == body.description,
                start.wf(),
                self.wf(),
                start.committed.leads_to(self@.committed),
                moving(start, id, target, description, policy, stamp, state, step, self@),
            decreases state.remaining(),
        {
            match step {
                Step::Run(cmd) => {
                    let ghost now = self@;
                    let reply = self.execute(cmd, stamp);
                    proof {
                        moving_kept(
                            start,
                            id,
                            target,
                            description,
                            policy,
                            stamp,
                            state,
                            cmd,
                            now,
                            reply,
                            self@,
                        );
                        start.committed.leads_on(now.committed, self@.committed);
                    }
                    let (after, then) = state.step(reply);
                    state = after;
                    step = then;
                },
                Step::Done(outcome) => {
                    return outcome;
                },
                Step::Halt => {
                    return Err(Error::PersistenceError);
                },
            }
        }
    }
}

/// A created delivery is in `PREPARING`, it is the only row added to the
/// deliveries, and the outbox has exactly one more `orders.delivery_created`
/// entry than before, `PENDING`, for this order and delivery; no other entry
/// and no audit line is added.
pub proof fn creates_one_of_each(
    before: StoreView,
    after: StoreView,
    order_id: i32,
    delivery_address: serde_json::Value,
    stamp: Stamp,
)
    requires
        before.created(
            after,
            DeliveryEntity::inserted(
                CreateDeliveryEntity::starting(order_id, delivery_address),
                stamp,
            ),
            stamp.now,
        ),
    ensures
        after.committed.deliveries.len() == before.committed.deliveries.len() + 1,
        after.committed.deliveries.last().status == DeliveryStatus::Preparing,
        after.committed.deliveries.last().order_id == order_id,
        after.committed.deliveries.last().id == stamp.id,
        after.committed.deliveries.drop_last() == before.committed.deliveries,
        after.committed.delivery_logs == before.committed.delivery_logs,
        after.committed.outbox.len() == before.committed.outbox.len() + 1,
        after.committed.outbox.last().status == OutboxStatus::Pending,
        after.committed.outbox.last().carries(Creation::announcement(order_id, stamp.id)),
        entries_on(after.committed.outbox, delivery_created_topic()) == entries_on(
            before.committed.outbox,
            delivery_created_topic(),
        ) + 1,
        entries_on(after.committed.outbox, delivery_success_topic()) == entries_on(
            before.committed.outbox,
            delivery_success_topic(),
        ),
{
    let event = Creation::announcement(order_id, stamp.id);
    event.topics_differ(Transition::announcement(order_id));
    assert(after.committed.deliveries.drop_last() =~= before.committed.deliveries);
}

/// A transition that took effect was permitted by the policy, set exactly the
/// status asked for on exactly the delivery asked for, and left every other
/// delivery as it was. Under the sequential policy the new status is the one
/// that follows the old.
pub proof fn moves_as_permitted(
    before: StoreView,
    after: StoreView,
    id: u128,
    target: DeliveryStatus,
    description: String,
    policy: TransitionPolicy,
    stamp: Stamp,
    res: UpdateDeliveryStateRes,
)
    requires
        before.wf(),
        before.refusal(id, Some(target), policy, stamp) is None,
        before.moved(after, id, target, description, stamp, res),
    ensures
        policy.permits(before.committed.delivery(id).status, target),
        policy == TransitionPolicy::Sequential ==> before.committed.delivery(id).status.successor()
            == Some(target),
        after.committed.deliveries.len() == before.committed.deliveries.len(),
        forall|i: int|
            0 <= i < before.committed.deliveries.len() ==> #[trigger] after.committed.deliveries[i]
                == if before.committed.deliveries[i].id == id {
                before.committed.deliveries[i].moved_to(target, stamp.now)
            } else {
                before.committed.deliveries[i]
            },
{
}

/// A request that names none of the three statuses is refused with
/// `InvalidTransition`, whatever the store holds.
pub proof fn unlisted_status_is_refused(
    before: StoreView,
    id: u128,
    text: Seq<char>,
    policy: TransitionPolicy,
    stamp: Stamp,
)
    requires
        text != DeliveryStatus::Preparing.name(),
        text != DeliveryStatus::EnRoute.name(),
        text != DeliveryStatus::Delivered.name(),
    ensures
        before.refusal(id, DeliveryStatus::named(text), policy, stamp) == Some(
            Error::InvalidTransition,
        ),
{
}

/// A transition that took effect appended exactly one audit line, with the
/// new status and the description given, for the delivery it moved.
pub proof fn logs_one_line(
    before: StoreView,
    after: StoreView,
    id: u128,
    target: DeliveryStatus,
    description: String,
    stamp: Stamp,
    res: UpdateDeliveryStateRes,
)
    requires
        before.moved(after, id, target, description, stamp, res),
    ensures
        after.committed.delivery_logs.len() == before.committed.delivery_logs.len() + 1,
        after.committed.delivery_logs.drop_last() == before.committed.delivery_logs,
        after.committed.delivery_logs.last() == res.delivery_log,
        res.delivery_log.delivery_id == id,
        res.delivery_log.status == target,
        res.delivery_log.description == description,
{
}

/// A transition into `DELIVERED` queues exactly one `orders.delivery_success`
/// entry, `PENDING`, for the delivery's order; a transition into any other
/// status queues none. Neither queues anything else.
pub proof fn announces_arrival_only(
    before: StoreView,
    after: StoreView,
    id: u128,
    target: DeliveryStatus,
    description: String,
    stamp: Stamp,
    res: UpdateDeliveryStateRes,
)
    requires
        before.moved(after, id, target, description, stamp, res),
    ensures
        entries_on(after.committed.outbox, delivery_success_topic()) == entries_on(
            before.committed.outbox,
            delivery_success_topic(),
        ) + if target == DeliveryStatus::Delivered {
            1nat
        } else {
            0nat
        },
        entries_on(after.committed.outbox, delivery_created_topic()) == entries_on(
            before.committed.outbox,
            delivery_created_topic(),
        ),
        target == DeliveryStatus::Delivered ==> {
            &&& after.committed.outbox.len() == before.committed.outbox.len() + 1
            &&& after.committed.outbox.last().status == OutboxStatus::Pending
            &&& after.committed.outbox.last().carries(
                Transition::announcement(before.committed.delivery(id).order_id),
            )
        },
        target != DeliveryStatus::Delivered ==> after.committed.outbox == before.committed.outbox,
{
    let order = before.committed.delivery(id).order_id;
    Transition::announcement(order).topics_differ(Creation::announcement(order, id));
}

/// A failure between the insert of the delivery and the write of its event
/// keeps neither: the script asks for a rollback, the rollback restores the
/// store, and the script ends with `PersistenceError`.
pub proof fn failed_announcement_keeps_nothing(
    before: StoreView,
    order_id: i32,
    delivery_address: serde_json::Value,
    stamp: Stamp,
    opened: StoreView,
    inserted: StoreView,
    restored: StoreView,
    failure: Reply,
)
    requires
        before.staged is None,
        !before.committed.has_delivery(stamp.id),
        !(failure is OutboxWritten),
        executed(before, Command::Begin, stamp, opened, Reply::Begun),
        executed(
            opened,
            Command::InsertDelivery(CreateDeliveryEntity::starting(order_id, delivery_address)),
            stamp,
            inserted,
            Reply::DeliveryInserted(
                DeliveryEntity::inserted(
                    CreateDeliveryEntity::starting(order_id, delivery_address),
                    stamp,
                ),
            ),
        ),
        executed(inserted, Command::Rollback, stamp, restored, Reply::RolledBack),
    ensures
        ({
            let script = Creation::started(order_id, delivery_address).0;
            let announcing = script.next(Reply::Begun).0.next(
                Reply::DeliveryInserted(
                    DeliveryEntity::inserted(
                        CreateDeliveryEntity::starting(order_id, delivery_address),
                        stamp,
                    ),
                ),
            );
            let aborting = announcing.0.next(failure);
            &&& announcing.1 == Step::<DeliveryEntity>::Run(
                Command::WriteOutbox(Creation::announcement(order_id, stamp.id)),
            )
            &&& inserted.staged.unwrap().has_delivery(stamp.id)
            &&& aborting.1 == Step::<DeliveryEntity>::Run(Command::Rollback)
            &&& aborting.0.next(Reply::RolledBack).1 == Step::<DeliveryEntity>::Done(
                Err(Error::PersistenceError),
            )
            &&& restored == before
        }),
{
    let d = DeliveryEntity::inserted(
        CreateDeliveryEntity::starting(order_id, delivery_address),
        stamp,
    );
    let l = inserted.staged.unwrap();
    assert(l.deliveries[l.deliveries.len() - 1].id == stamp.id);
}

} // verus!
