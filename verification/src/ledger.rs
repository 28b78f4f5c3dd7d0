//! The contents of the service's tables as a mathematical value, and the rules
//! that every state of them obeys.

use crate::models::{DeliveryEntity, DeliveryLogEntity};
use crate::events::OutboundEvent;
use crate::outbox::OutboxEntry;
use crate::status::{DeliveryStatus, OutboxStatus};
use vstd::prelude::*;

verus! {

/// What the tables `deliveries`, `delivery_logs` and `outbox` hold at one
/// moment, each in insertion order.
#[verifier::ext_equal]
pub struct Ledger {
    pub deliveries: Seq<DeliveryEntity>,
    pub delivery_logs: Seq<DeliveryLogEntity>,
    pub outbox: Seq<OutboxEntry>,
}

impl Ledger {
    /// The tables with no rows.
    pub open spec fn empty() -> Ledger {
        Ledger { deliveries: Seq::empty(), delivery_logs: Seq::empty(), outbox: Seq::empty() }
    }

    /// Whether a delivery has the identifier `id`.
    pub open spec fn has_delivery(self, id: u128) -> bool {
        exists|i: int| 0 <= i < self.deliveries.len() && (#[trigger] self.deliveries[i]).id == id
    }

    /// The position of the delivery with the identifier `id`.
    pub open spec fn delivery_at(self, id: u128) -> int {
        choose|i: int| 0 <= i < self.deliveries.len() && (#[trigger] self.deliveries[i]).id == id
    }

    /// The delivery with the identifier `id`.
    pub open spec fn delivery(self, id: u128) -> DeliveryEntity {
        self.deliveries[self.delivery_at(id)]
    }

    /// Whether an audit line has the identifier `id`.
    pub open spec fn has_log(self, id: u128) -> bool {
        exists|i: int|
            0 <= i < self.delivery_logs.len() && (#[trigger] self.delivery_logs[i]).id == id
    }

    /// Whether an outbox entry has the identifier `id`.
    pub open spec fn has_entry(self, id: i32) -> bool {
        exists|i: int| 0 <= i < self.outbox.len() && (#[trigger] self.outbox[i]).id == id
    }

    /// The position of the outbox entry with the identifier `id`.
    pub open spec fn entry_at(self, id: i32) -> int {
        choose|i: int| 0 <= i < self.outbox.len() && (#[trigger] self.outbox[i]).id == id
    }

    /// The identifier that the next outbox entry gets: one more than the last.
    pub open spec fn next_outbox_id(self) -> int {
        if self.outbox.len() == 0 {
            1
        } else {
            self.outbox.last().id + 1
        }
    }

    /// The rules of the tables: identifiers are unique, every audit line
    /// belongs to a delivery, and outbox identifiers grow with each entry.
    pub open spec fn wf(self) -> bool {
        &&& forall|i: int, j: int|
            0 <= i < j < self.deliveries.len() ==> (#[trigger] self.deliveries[i]).id != (
            #[trigger] self.deliveries[j]).id
        &&& forall|i: int, j: int|
            0 <= i < j < self.delivery_logs.len() ==> (#[trigger] self.delivery_logs[i]).id != (
            #[trigger] self.delivery_logs[j]).id
        &&& forall|i: int|
            0 <= i < self.delivery_logs.len() ==> self.has_delivery(
                (#[trigger] self.delivery_logs[i]).delivery_id,
            )
        &&& forall|i: int, j: int|
            0 <= i < j < self.outbox.len() ==> (#[trigger] self.outbox[i]).id < (
            #[trigger] self.outbox[j]).id
        &&& forall|i: int| 0 <= i < self.outbox.len() ==> (#[trigger] self.outbox[i]).id >= 1
    }

    /// Whether `later` can follow this state: no row is ever removed, a
    /// delivery keeps its identity, audit lines are never changed, and an
    /// outbox entry keeps its content and never returns from `SENT`.
    pub open spec fn leads_to(self, later: Ledger) -> bool {
        &&& self.deliveries.len() <= later.deliveries.len()
        &&& forall|i: int|
            0 <= i < self.deliveries.len() ==> (#[trigger] self.deliveries[i]).same_delivery(
                later.deliveries[i],
            )
        &&& self.delivery_logs.len() <= later.delivery_logs.len()
        &&& forall|i: int|
            0 <= i < self.delivery_logs.len() ==> #[trigger] self.delivery_logs[i]
                == later.delivery_logs[i]
        &&& self.outbox.len() <= later.outbox.len()
        &&& forall|i: int|
            0 <= i < self.outbox.len() ==> (#[trigger] self.outbox[i]).same_entry(later.outbox[i])
    }

    /// This state with the delivery `d` added.
    pub open spec fn with_delivery(self, d: DeliveryEntity) -> Ledger {
        Ledger { deliveries: self.deliveries.push(d), ..self }
    }

    /// This state with the delivery `id` set to `status` at `now`.
    pub open spec fn with_status(self, id: u128, status: DeliveryStatus, now: i64) -> Ledger {
        Ledger {
            deliveries: self.deliveries.update(
                self.delivery_at(id),
                self.delivery(id).moved_to(status, now),
            ),
            ..self
        }
    }

    /// This state with the audit line `l` added.
    pub open spec fn with_log(self, l: DeliveryLogEntity) -> Ledger {
        Ledger { delivery_logs: self.delivery_logs.push(l), ..self }
    }

    /// This state with the outbox entry `e` added.
    pub open spec fn with_entry(self, e: OutboxEntry) -> Ledger {
        Ledger { outbox: self.outbox.push(e), ..self }
    }

    /// This state with the outbox entry `id` marked `SENT` at `now`.
    pub open spec fn with_sent(self, id: i32, now: i64) -> Ledger {
        Ledger {
            outbox: self.outbox.update(self.entry_at(id), self.outbox[self.entry_at(id)].sent(now)),
            ..self
        }
    }

    /// Whether `later` has the outbox of this state and, behind it, one new
    /// `PENDING` entry that carries `event`, dated `now`, under the next
    /// identifier.
    pub open spec fn queues(self, later: Ledger, event: OutboundEvent, now: i64) -> bool {
        &&& later.outbox.len() == self.outbox.len() + 1
        &&& later.outbox.drop_last() =~= self.outbox
        &&& later.outbox.last().carries(event)
        &&& later.outbox.last().id == self.next_outbox_id()
        &&& later.outbox.last().status == OutboxStatus::Pending
        &&& later.outbox.last().created_at == now
        &&& later.outbox.last().updated_at == now
    }

    /// Every state can follow itself.
    pub proof fn leads_to_itself(self)
        ensures
            self.leads_to(self),
    {
    }

    /// What can follow a later state can follow this one.
    pub proof fn leads_on(self, middle: Ledger, later: Ledger)
        requires
            self.leads_to(middle),
            middle.leads_to(later),
        ensures
            self.leads_to(later),
    {
    }

    /// A position that holds the identifier `id` is the delivery's position.
    pub proof fn delivery_found(self, id: u128, i: int)
        requires
            self.wf(),
            0 <= i < self.deliveries.len(),
            self.deliveries[i].id == id,
        ensures
            self.has_delivery(id),
            self.delivery_at(id) == i,
    {
    }

    /// A position that holds the identifier `id` is the entry's position.
    pub proof fn entry_found(self, id: i32, i: int)
        requires
            self.wf(),
            0 <= i < self.outbox.len(),
            self.outbox[i].id == id,
        ensures
            self.has_entry(id),
            self.entry_at(id) == i,
    {
    }

    /// Every outbox identifier is below the next one.
    pub proof fn outbox_ids_bounded(self, i: int)
        requires
            self.wf(),
            0 <= i < self.outbox.len(),
        ensures
            1 <= self.outbox[i].id < self.next_outbox_id(),
    {
    }

    /// Adding a delivery under an unused identifier keeps the rules.
    pub proof fn delivery_added(self, d: DeliveryEntity)
        requires
            self.wf(),
            !self.has_delivery(d.id),
        ensures
            self.with_delivery(d).wf(),
            self.leads_to(self.with_delivery(d)),
    {
    }

    /// Setting the status of a delivery keeps the rules.
    pub proof fn status_set(self, id: u128, status: DeliveryStatus, now: i64)
        requires
            self.wf(),
            self.has_delivery(id),
        ensures
            self.with_status(id, status, now).wf(),
            self.leads_to(self.with_status(id, status, now)),
            self.with_status(id, status, now).has_delivery(id),
    {
        let next = self.with_status(id, status, now);
        let at = self.delivery_at(id);
        assert(0 <= at < self.deliveries.len() && self.deliveries[at].id == id);
        assert forall|i: int| 0 <= i < next.deliveries.len() implies (
        #[trigger] next.deliveries[i]).id == self.deliveries[i].id by {}
        assert forall|i: int, j: int| 0 <= i < j < next.deliveries.len() implies (
        #[trigger] next.deliveries[i]).id != (#[trigger] next.deliveries[j]).id by {
            assert(self.deliveries[i].id != self.deliveries[j].id);
        }
        assert forall|i: int| 0 <= i < next.delivery_logs.len() implies next.has_delivery(
            (#[trigger] next.delivery_logs[i]).delivery_id,
        ) by {
            let owner = self.delivery_logs[i].delivery_id;
            assert(self.has_delivery(owner));
            let k = self.delivery_at(owner);
            assert(next.deliveries[k].id == owner);
        }
        assert(next.deliveries[at].id == id);
    }

    /// Adding an audit line under an unused identifier, for a delivery that
    /// exists, keeps the rules.
    pub proof fn log_added(self, l: DeliveryLogEntity)
        requires
            self.wf(),
            !self.has_log(l.id),
            self.has_delivery(l.delivery_id),
        ensures
            self.with_log(l).wf(),
            self.leads_to(self.with_log(l)),
    {
    }

    /// Adding an outbox entry under the next identifier keeps the rules.
    pub proof fn entry_added(self, e: OutboxEntry)
        requires
            self.wf(),
            e.id == self.next_outbox_id(),
        ensures
            self.with_entry(e).wf(),
            self.leads_to(self.with_entry(e)),
    {
    }

    /// Marking an outbox entry `SENT` keeps the rules.
    pub proof fn entry_sent(self, id: i32, now: i64)
        requires
            self.wf(),
            self.has_entry(id),
        ensures
            self.with_sent(id, now).wf(),
            self.leads_to(self.with_sent(id, now)),
    {
    }
}

} // verus!
