//! An in-memory store with the transactional behaviour that the handlers rely
//! on: writes go to a working copy that replaces the committed tables on
//! commit and is dropped on rollback.
//!
//! A store has one session, which holds at most one open transaction. Rows
//! are written only inside a transaction. Marking an outbox entry as sent is
//! the relay's own write: it applies directly to the committed tables and is
//! refused while a transaction is open.

use crate::error::Error;
use crate::ledger::Ledger;
use crate::models::{
    CreateDeliveryEntity, CreateDeliveryLogEntity, DeliveryEntity, DeliveryLogEntity, Stamp,
};
use crate::outbox::{batch, pending_batch, OutboxEntry};
use crate::status::{DeliveryStatus, OutboxStatus};
use crate::storage::{Command, Reply};
use vstd::prelude::*;

verus! {

/// What a store holds: the committed tables, and the working copy of the open
/// transaction if there is one.
#[verifier::ext_equal]
pub struct StoreView {
    pub committed: Ledger,
    pub staged: Option<Ledger>,
}

impl StoreView {
    /// The rules of a store: the tables obey theirs, and an open transaction
    /// has only made changes that can follow the committed state.
    pub open spec fn wf(self) -> bool {
        &&& self.committed.wf()
        &&& self.staged matches Some(l) ==> l.wf() && self.committed.leads_to(l)
    }

    /// What a read sees: the working copy inside a transaction, the committed
    /// tables outside.
    pub open spec fn visible(self) -> Ledger {
        match self.staged {
            Some(l) => l,
            None => self.committed,
        }
    }

    /// This store with `l` as the working copy.
    pub open spec fn stage(self, l: Ledger) -> StoreView {
        StoreView { committed: self.committed, staged: Some(l) }
    }

    /// This store with `l` committed and no transaction open.
    pub open spec fn settle(l: Ledger) -> StoreView {
        StoreView { committed: l, staged: None }
    }

    /// Whether a delivery can be inserted under `id`: a transaction is open
    /// and the identifier is unused.
    pub open spec fn can_insert_delivery(self, id: u128) -> bool {
        self.staged matches Some(l) && !l.has_delivery(id)
    }

    /// Whether the audit line `new` can be inserted under `id`: a transaction
    /// is open, the identifier is unused and the delivery exists.
    pub open spec fn can_insert_log(self, new: CreateDeliveryLogEntity, id: u128) -> bool {
        self.staged matches Some(l) && !l.has_log(id) && l.has_delivery(new.delivery_id)
    }

    /// Whether an outbox entry can be written: a transaction is open and the
    /// identifiers are not used up.
    pub open spec fn can_write_outbox(self) -> bool {
        self.staged matches Some(l) && l.next_outbox_id() <= i32::MAX
    }
}

/// Whether carrying out `cmd` under `stamp` on the store `before` leaves the
/// store `after` and gives `reply`. A command that cannot be carried out
/// changes nothing.
pub open spec fn executed(
    before: StoreView,
    cmd: Command,
    stamp: Stamp,
    after: StoreView,
    reply: Reply,
) -> bool {
    match cmd {
        Command::Begin => if before.staged is None {
            after == before.stage(before.committed) && reply == Reply::Begun
        } else {
            after == before && reply == Reply::Failed
        },
        Command::InsertDelivery(new) => if before.can_insert_delivery(stamp.id) {
            let d = DeliveryEntity::inserted(new, stamp);
            after == before.stage(before.visible().with_delivery(d)) && reply
                == Reply::DeliveryInserted(d)
        } else {
            after == before && reply == Reply::Failed
        },
        Command::LoadDelivery(id) => after == before && reply == if before.visible().has_delivery(
            id,
        ) {
            Reply::DeliveryLoaded(before.visible().delivery(id))
        } else {
            Reply::DeliveryMissing
        },
        Command::UpdateStatus { id, status } => match before.staged {
            None => after == before && reply == Reply::Failed,
            Some(l) => if l.has_delivery(id) {
                after == before.stage(l.with_status(id, status, stamp.now)) && reply
                    == Reply::DeliveryUpdated(l.delivery(id).moved_to(status, stamp.now))
            } else {
                after == before && reply == Reply::DeliveryMissing
            },
        },
        Command::InsertLog(new) => if before.can_insert_log(new, stamp.id) {
            let l = DeliveryLogEntity::inserted(new, stamp);
            after == before.stage(before.visible().with_log(l)) && reply == Reply::LogInserted(l)
        } else {
            after == before && reply == Reply::Failed
        },
        Command::WriteOutbox(event) => if before.can_write_outbox() {
            &&& reply matches Reply::OutboxWritten(e)
            &&& e.carries(event)
            &&& e.id == before.visible().next_outbox_id()
            &&& e.status == OutboxStatus::Pending
            &&& e.created_at == stamp.now
            &&& e.updated_at == stamp.now
            &&& after == before.stage(before.visible().with_entry(e))
        } else {
            after == before && reply == Reply::Failed
        },
        Command::Commit => match before.staged {
            Some(l) => after == StoreView::settle(l) && reply == Reply::Committed,
            None => after == before && reply == Reply::Failed,
        },
        Command::Rollback => after == StoreView::settle(before.committed) && reply
            == Reply::RolledBack,
    }
}

struct Tables {
    deliveries: Vec<DeliveryEntity>,
    delivery_logs: Vec<DeliveryLogEntity>,
    outbox: Vec<OutboxEntry>,
}

impl Tables {
    spec fn view(&self) -> Ledger {
        Ledger {
            deliveries: self.deliveries@,
            delivery_logs: self.delivery_logs@,
            outbox: self.outbox@,
        }
    }

    fn new() -> (r: Tables)
        ensures
            r.view() == Ledger::empty(),
    {
        Tables { deliveries: Vec::new(), delivery_logs: Vec::new(), outbox: Vec::new() }
    }

    fn copy(&self) -> (r: Tables)
        ensures
            r.view() == self.view(),
    {
        let deliveries = self.deliveries.clone();
        let delivery_logs = self.delivery_logs.clone();
        let outbox = self.outbox.clone();
        Tables { deliveries, delivery_logs, outbox }
    }
}

fn find_delivery(rows: &Vec<DeliveryEntity>, id: u128) -> (r: Option<usize>)
    ensures
        match r {
            Some(i) => i < rows.len() && rows[i as int].id == id,
            None => forall|j: int| 0 <= j < rows.len() ==> rows[j].id != id,
        },
{
    let mut i: usize = 0;
    while i < rows.len()
        invariant
            i <= rows.len(),
            forall|j: int| 0 <= j < i ==> rows[j].id != id,
        decreases rows.len() - i,
    {
        if rows[i].id == id {
            return Some(i);
        }
        i = i + 1;
    }
    None
}

fn find_log(rows: &Vec<DeliveryLogEntity>, id: u128) -> (r: Option<usize>)
    ensures
        match r {
            Some(i) => i < rows.len() && rows[i as int].id == id,
            None => forall|j: int| 0 <= j < rows.len() ==> rows[j].id != id,
        },
{
    let mut i: usize = 0;
    while i < rows.len()
        invariant
            i <= rows.len(),
            forall|j: int| 0 <= j < i ==> rows[j].id != id,
        decreases rows.len() - i,
    {
        if rows[i].id == id {
            return Some(i);
        }
        i = i + 1;
    }
    None
}

fn find_entry(rows: &Vec<OutboxEntry>, id: i32) -> (r: Option<usize>)
    ensures
        match r {
            Some(i) => i < rows.len() && rows[i as int].id == id,
            None => forall|j: int| 0 <= j < rows.len() ==> rows[j].id != id,
        },
{
    let mut i: usize = 0;
    while i < rows.len()
        invariant
            i <= rows.len(),
            forall|j: int| 0 <= j < i ==> rows[j].id != id,
        decreases rows.len() - i,
    {
        if rows[i].id == id {
            return Some(i);
        }
        i = i + 1;
    }
    None
}

/// The in-memory store.
pub struct Store {
    committed: Tables,
    working: Tables,
    open: bool,
}

impl View for Store {
    type V = StoreView;

    closed spec fn view(&self) -> StoreView {
        StoreView {
            committed: self.committed.view(),
            staged: if self.open {
                Some(self.working.view())
            } else {
                None
            },
        }
    }
}

impl Store {
    /// Whether the store obeys its rules. Every store made by [`Store::new`]
    /// does, and every operation keeps it so.
    pub open spec fn wf(&self) -> bool {
        self@.wf()
    }

    /// A store with empty tables and no open transaction.
    pub fn new() -> (r: Store)
        ensures
            r.wf(),
            r@ == StoreView::settle(Ledger::empty()),
    {
        Store { committed: Tables::new(), working: Tables::new(), open: false }
    }

    /// Whether a transaction is open.
    pub fn in_transaction(&self) -> (r: bool)
        ensures
            r == self@.staged is Some,
    {
        self.open
    }

    /// The committed deliveries, in insertion order.
    pub fn deliveries(&self) -> (r: &Vec<DeliveryEntity>)
        ensures
            r@ == self@.committed.deliveries,
    {
        &self.committed.deliveries
    }

    /// The committed audit lines, in insertion order.
    pub fn delivery_logs(&self) -> (r: &Vec<DeliveryLogEntity>)
        ensures
            r@ == self@.committed.delivery_logs,
    {
        &self.committed.delivery_logs
    }

    /// The committed outbox entries, in insertion order.
    pub fn outbox(&self) -> (r: &Vec<OutboxEntry>)
        ensures
            r@ == self@.committed.outbox,
    {
        &self.committed.outbox
    }

    /// Opens a transaction on a copy of the committed tables. Fails with
    /// `PersistenceError`, changing nothing, if one is open already.
    pub fn begin(&mut self) -> (r: Result<(), Error>)
        requires
            old(self).wf(),
        ensures
            final(self).wf(),
            match r {
                Ok(_) => {
                    &&& old(self)@.staged is None
                    &&& final(self)@ == old(self)@.stage(old(self)@.committed)
                },
                Err(e) => {
                    &&& e == Error::PersistenceError
                    &&& old(self)@.staged is Some
                    &&& final(self)@ == old(self)@
                },
            },
    {
        if self.open {
            return Err(Error::PersistenceError);
        }
        self.working = self.committed.copy();
        self.open = true;
        proof {
            self@.committed.leads_to_itself();
        }
        Ok(())
    }

    /// Commits the open transaction: its working copy becomes the committed
    /// state. Fails with `PersistenceError`, changing nothing, if none is open.
    pub fn commit(&mut self) -> (r: Result<(), Error>)
        requires
            old(self).wf(),
        ensures
            final(self).wf(),
            old(self)@.committed.leads_to(final(self)@.committed),
            match r {
                Ok(_) => {
                    &&& old(self)@.staged matches Some(l)
                    &&& final(self)@ == StoreView::settle(l)
                },
                Err(e) => {
                    &&& e == Error::PersistenceError
                    &&& old(self)@.staged is None
                    &&& final(self)@ == old(self)@
                },
            },
    {
        proof {
            self@.committed.leads_to_itself();
        }
        if !self.open {
            return Err(Error::PersistenceError);
        }
        std::mem::swap(&mut self.committed, &mut self.working);
        self.open = false;
        Ok(())
    }

    /// Abandons the open transaction, if there is one: the committed state
    /// stands as it was before the transaction began.
    pub fn rollback(&mut self)
        requires
            old(self).wf(),
        ensures
            final(self).wf(),
            final(self)@ == StoreView::settle(old(self)@.committed),
    {
        self.open = false;
    }

    /// Inserts a delivery with the columns `new`, under the identifier and
    /// time of `stamp`. Fails with `PersistenceError`, changing nothing, if no
    /// transaction is open or the identifier is in use.
    pub fn insert_delivery(&mut self, new: CreateDeliveryEntity, stamp: Stamp) -> (r: Result<
        DeliveryEntity,
        Error,
    >)
        requires
            old(self).wf(),
        ensures
            final(self).wf(),
            match r {
                Ok(d) => {
                    &&& old(self)@.can_insert_delivery(stamp.id)
                    &&& d == DeliveryEntity::inserted(new, stamp)
                    &&& final(self)@ == old(self)@.stage(old(self)@.visible().with_delivery(d))
                },
                Err(e) => {
                    &&& e == Error::PersistenceError
                    &&& !old(self)@.can_insert_delivery(stamp.id)
                    &&& final(self)@ == old(self)@
                },
            },
    {
        if !self.open {
            return Err(Error::PersistenceError);
        }
        if find_delivery(&self.working.deliveries, stamp.id).is_some() {
            return Err(Error::PersistenceError);
        }
        let row = DeliveryEntity {
            id: stamp.id,
            delivery_address: new.delivery_address,
            order_id: new.order_id,
            status: new.status,
            created_at: stamp.now,
            updated_at: stamp.now,
        };
        let copy = row.clone();
        proof {
            let before = self@.visible();
            before.delivery_added(row);
            self@.committed.leads_on(before, before.with_delivery(row));
        }
        self.working.deliveries.push(row);
        Ok(copy)
    }

    /// Reads the delivery with the identifier `id`, as the session sees it.
    /// Fails with `NotFound` if there is none.
    pub fn load_delivery(&self, id: u128) -> (r: Result<DeliveryEntity, Error>)
        requires
            self.wf(),
        ensures
            match r {
                Ok(d) => self@.visible().has_delivery(id) && d == self@.visible().delivery(id),
                Err(e) => e == Error::NotFound && !self@.visible().has_delivery(id),
            },
    {
        if self.open {
            match find_delivery(&self.working.deliveries, id) {
                Some(i) => {
                    proof {
                        self@.visible().delivery_found(id, i as int);
                    }
                    Ok(self.working.deliveries[i].clone())
                },
                None => Err(Error::NotFound),
            }
        } else {
            match find_delivery(&self.committed.deliveries, id) {
                Some(i) => {
                    proof {
                        self@.visible().delivery_found(id, i as int);
                    }
                    Ok(self.committed.deliveries[i].clone())
                },
                None => Err(Error::NotFound),
            }
        }
    }

    /// Sets the status of the delivery `id` to `status` at `now` and returns
    /// the row as it then stands. Fails, changing nothing, with
    /// `PersistenceError` if no transaction is open, and with `NotFound` if
    /// the open transaction sees no such delivery.
    pub fn update_status(&mut self, id: u128, status: DeliveryStatus, now: i64) -> (r: Result<
        DeliveryEntity,
        Error,
    >)
        requires
            old(self).wf(),
        ensures
            final(self).wf(),
            match r {
                Ok(d) => {
                    &&& old(self)@.staged matches Some(l)
                    &&& l.has_delivery(id)
                    &&& d == l.delivery(id).moved_to(status, now)
                    &&& final(self)@ == old(self)@.stage(l.with_status(id, status, now))
                },
                Err(e) => {
                    &&& final(self)@ == old(self)@
                    &&& match old(self)@.staged {
                        None => e == Error::PersistenceError,
                        Some(l) => e == Error::NotFound && !l.has_delivery(id),
                    }
                },
            },
    {
        if !self.open {
            return Err(Error::PersistenceError);
        }
        match find_delivery(&self.working.deliveries, id) {
            None => Err(Error::NotFound),
            Some(i) => {
                let current = &self.working.deliveries[i];
                let row = DeliveryEntity {
                    id: current.id,
                    delivery_address: current.delivery_address.clone(),
                    order_id: current.order_id,
                    status,
                    created_at: current.created_at,
                    updated_at: now,
                };
                let copy = row.clone();
                proof {
                    let before = self@.visible();
                    before.delivery_found(id, i as int);
                    before.status_set(id, status, now);
                    self@.committed.leads_on(before, before.with_status(id, status, now));
                }
                self.working.deliveries.set(i, row);
                Ok(copy)
            },
        }
    }

    /// Appends the audit line `new`, under the identifier and time of `stamp`.
    /// Fails with `PersistenceError`, changing nothing, if no transaction is
    /// open, the identifier is in use or the delivery does not exist.
    pub fn insert_log(&mut self, new: CreateDeliveryLogEntity, stamp: Stamp) -> (r: Result<
        DeliveryLogEntity,
        Error,
    >)
        requires
            old(self).wf(),
        ensures
            final(self).wf(),
            match r {
                Ok(l) => {
                    &&& old(self)@.can_insert_log(new, stamp.id)
                    &&& l == DeliveryLogEntity::inserted(new, stamp)
                    &&& final(self)@ == old(self)@.stage(old(self)@.visible().with_log(l))
                },
                Err(e) => {
                    &&& e == Error::PersistenceError
                    &&& !old(self)@.can_insert_log(new, stamp.id)
                    &&& final(self)@ == old(self)@
                },
            },
    {
        if !self.open {
            return Err(Error::PersistenceError);
        }
        if find_log(&self.working.delivery_logs, stamp.id).is_some() {
            return Err(Error::PersistenceError);
        }
        match find_delivery(&self.working.deliveries, new.delivery_id) {
            None => Err(Error::PersistenceError),
            Some(i) => {
                let row = DeliveryLogEntity {
                    id: stamp.id,
                    delivery_id: new.delivery_id,
                    description: new.description,
                    status: new.status,
                    created_at: stamp.now,
                    updated_at: stamp.now,
                };
                let copy = row.clone();
                proof {
                    let before = self@.visible();
                    before.delivery_found(new.delivery_id, i as int);
                    before.log_added(row);
                    self@.committed.leads_on(before, before.with_log(row));
                }
                self.working.delivery_logs.push(row);
                Ok(copy)
            },
        }
    }

    /// Queues an event in the outbox of the open transaction: a `PENDING`
    /// entry with the given tag and payload, under the next identifier, dated
    /// `now`. It neither opens nor commits a transaction. Fails with
    /// `PersistenceError`, changing nothing, if no transaction is open or the
    /// identifiers are used up.
    pub fn publish(&mut self, event_type: String, payload: String, now: i64) -> (r: Result<
        OutboxEntry,
        Error,
    >)
        requires
            old(self).wf(),
        ensures
            final(self).wf(),
            final(self)@.committed == old(self)@.committed,
            match r {
                Ok(e) => {
                    &&& old(self)@.can_write_outbox()
                    &&& e == OutboxEntry::written(
                        old(self)@.visible().next_outbox_id() as i32,
                        event_type,
                        payload,
                        now,
                    )
                    &&& final(self)@ == old(self)@.stage(old(self)@.visible().with_entry(e))
                },
                Err(e) => {
                    &&& e == Error::PersistenceError
                    &&& !old(self)@.can_write_outbox()
                    &&& final(self)@ == old(self)@
                },
            },
    {
        if !self.open {
            return Err(Error::PersistenceError);
        }
        let n = self.working.outbox.len();
        let id: i32 = if n == 0 {
            1
        } else {
            let last = self.working.outbox[n - 1].id;
            if last == i32::MAX {
                return Err(Error::PersistenceError);
            }
            last + 1
        };
        let row = OutboxEntry {
            id,
            event_type,
            payload,
            status: OutboxStatus::Pending,
            created_at: now,
            updated_at: now,
        };
        let copy = row.clone();
        proof {
            let before = self@.visible();
            before.entry_added(row);
            self@.committed.leads_on(before, before.with_entry(row));
        }
        self.working.outbox.push(row);
        Ok(copy)
    }

    /// The committed entries that still wait to be relayed, oldest first, at
    /// most `batch_size` of them. The store is not changed.
    pub fn drain_pending(&self, batch_size: usize) -> (r: Vec<OutboxEntry>)
        ensures
            r@ == batch(self@.committed.outbox, batch_size as nat),
    {
        pending_batch(&self.committed.outbox, batch_size)
    }

    /// Marks the committed outbox entry `id` as `SENT` at `now`. Fails,
    /// changing nothing, with `PersistenceError` while a transaction is open,
    /// and with `NotFound` if there is no such entry.
    pub fn mark_sent(&mut self, id: i32, now: i64) -> (r: Result<(), Error>)
        requires
            old(self).wf(),
        ensures
            final(self).wf(),
            old(self)@.committed.leads_to(final(self)@.committed),
            match r {
                Ok(_) => {
                    &&& old(self)@.staged is None
                    &&& old(self)@.committed.has_entry(id)
                    &&& final(self)@ == StoreView::settle(old(self)@.committed.with_sent(id, now))
                },
                Err(e) => {
                    &&& final(self)@ == old(self)@
                    &&& match old(self)@.staged {
                        Some(_) => e == Error::PersistenceError,
                        None => e == Error::NotFound && !old(self)@.committed.has_entry(id),
                    }
                },
            },
    {
        proof {
            self@.committed.leads_to_itself();
        }
        if self.open {
            return Err(Error::PersistenceError);
        }
        match find_entry(&self.committed.outbox, id) {
            None => Err(Error::NotFound),
            Some(i) => {
                let current = &self.committed.outbox[i];
                let row = OutboxEntry {
                    id: current.id,
                    event_type: current.event_type.clone(),
                    payload: current.payload.clone(),
                    status: OutboxStatus::Sent,
                    created_at: current.created_at,
                    updated_at: now,
                };
                proof {
                    self@.committed.entry_found(id, i as int);
                    self@.committed.entry_sent(id, now);
                }
                self.committed.outbox.set(i, row);
                Ok(())
            },
        }
    }

    /// Carries out one storage command under `stamp` and reports the reply.
    pub fn execute(&mut self, cmd: Command, stamp: Stamp) -> (reply: Reply)
        requires
            old(self).wf(),
        ensures
            final(self).wf(),
            old(self)@.committed.leads_to(final(self)@.committed),
            executed(old(self)@, cmd, stamp, final(self)@, reply),
    {
        proof {
            self@.committed.leads_to_itself();
        }
        match cmd {
            Command::Begin => match self.begin() {
                Ok(_) => Reply::Begun,
                Err(_) => Reply::Failed,
            },
            Command::InsertDelivery(new) => match self.insert_delivery(new, stamp) {
                Ok(d) => Reply::DeliveryInserted(d),
                Err(_) => Reply::Failed,
            },
            Command::LoadDelivery(id) => match self.load_delivery(id) {
                Ok(d) => Reply::DeliveryLoaded(d),
                Err(_) => Reply::DeliveryMissing,
            },
            Command::UpdateStatus { id, status } => match self.update_status(id, status, stamp.now) {
                Ok(d) => Reply::DeliveryUpdated(d),
                Err(Error::NotFound) => Reply::DeliveryMissing,
                Err(_) => Reply::Failed,
            },
            Command::InsertLog(new) => match self.insert_log(new, stamp) {
                Ok(l) => Reply::LogInserted(l),
                Err(_) => Reply::Failed,
            },
            Command::WriteOutbox(event) => {
                let tag = event.event_type().to_owned();
                match self.publish(tag, event.encode(), stamp.now) {
                    Ok(e) => Reply::OutboxWritten(e),
                    Err(_) => Reply::Failed,
                }
            },
            Command::Commit => match self.commit() {
                Ok(_) => Reply::Committed,
                Err(_) => Reply::Failed,
            },
            Command::Rollback => {
                self.rollback();
                Reply::RolledBack
            },
        }
    }
}

} // verus!
