//! One cycle of the outbox publisher run to its end against the in-memory
//! store, with the broker handed in as a function.

use crate::error::Error;
use crate::ledger::Ledger;
use crate::outbox::{batch, queue, queue_members, OutboxEntry};
use crate::publisher::{
    Attempt, Relay, RelayEvent, RelayEventView, RelayStep, RelayStepView, RelayView,
};
use crate::store::{Store, StoreView};
use vstd::prelude::*;

verus! {

/// Whether `report` says that the entry `id` was sent.
pub open spec fn reported_sent(report: Seq<Attempt>, id: i32) -> bool {
    exists|i: int|
        0 <= i < report.len() && (#[trigger] report[i]).id == id && report[i].outcome is Ok
}

/// Whether `report` is a true account of relaying `entries` through `broker`
/// on a store whose transaction state is `staged`: one attempt for each
/// entry, in order; `Ok` only for an entry that the broker confirmed and the
/// store could mark; `PublishError` only for one that the broker did not
/// confirm; `PersistenceError` only for one that it confirmed while an open
/// transaction kept the store from marking it.
pub open spec fn accounts<F: Fn(&OutboxEntry) -> bool>(
    broker: F,
    staged: Option<Ledger>,
    entries: Seq<OutboxEntry>,
    report: Seq<Attempt>,
) -> bool {
    &&& report.len() <= entries.len()
    &&& forall|i: int|
        0 <= i < report.len() ==> {
            &&& (#[trigger] report[i]).id == entries[i].id
            &&& match report[i].outcome {
                Ok(_) => call_ensures(broker, (&entries[i],), true) && staged is None,
                Err(Error::PublishError) => call_ensures(broker, (&entries[i],), false),
                Err(e) => e == Error::PersistenceError && call_ensures(
                    broker,
                    (&entries[i],),
                    true,
                ) && staged is Some,
            }
        }
}

/// Whether `now` is the store `start` with exactly the entries marked `SENT`
/// at `at` that `report` says were sent, and nothing else changed.
pub open spec fn relayed(start: StoreView, report: Seq<Attempt>, at: i64, now: StoreView) -> bool {
    &&& now.staged == start.staged
    &&& now.committed.deliveries == start.committed.deliveries
    &&& now.committed.delivery_logs == start.committed.delivery_logs
    &&& now.committed.outbox.len() == start.committed.outbox.len()
    &&& forall|k: int|
        0 <= k < start.committed.outbox.len() ==> #[trigger] now.committed.outbox[k]
            == if reported_sent(report, start.committed.outbox[k].id) {
            start.committed.outbox[k].sent(at)
        } else {
            start.committed.outbox[k]
        }
}

/// Whether a relay cycle that began on the store `start` has come to `state`
/// with `step` as its next step, the store now being `now`.
spec fn relaying<F: Fn(&OutboxEntry) -> bool>(
    broker: F,
    start: StoreView,
    batch_size: usize,
    at: i64,
    state: RelayView,
    step: RelayStepView,
    now: StoreView,
) -> bool {
    let entries = batch(start.committed.outbox, batch_size as nat);
    match state {
        RelayView::Forwarding { entries: e, at: i, report } => {
            &&& e == entries
            &&& state.tallied()
            &&& accounts(broker, start.staged, entries, report)
            &&& relayed(start, report, at, now)
            &&& step == RelayStepView::Forward(entries[i])
        },
        RelayView::Marking { entries: e, at: i, report } => {
            &&& e == entries
            &&& state.tallied()
            &&& accounts(broker, start.staged, entries, report)
            &&& relayed(start, report, at, now)
            &&& call_ensures(broker, (&entries[i],), true)
            &&& step == RelayStepView::MarkSent(entries[i].id)
        },
        RelayView::Resting => {
            &&& step matches RelayStepView::Rest(report)
            &&& report.len() == entries.len()
            &&& accounts(broker, start.staged, entries, report)
            &&& relayed(start, report, at, now)
        },
        RelayView::Draining => false,
    }
}

/// Adding an attempt to a report adds its entry to those reported sent if
/// the attempt succeeded, and changes nothing else.
proof fn reported_sent_grows(report: Seq<Attempt>, attempt: Attempt, id: i32)
    ensures
        reported_sent(report.push(attempt), id) <==> reported_sent(report, id) || (attempt.id == id
            && attempt.outcome is Ok),
{
    let grown = report.push(attempt);
    if reported_sent(report, id) {
        let i = choose|i: int|
            0 <= i < report.len() && (#[trigger] report[i]).id == id && report[i].outcome is Ok;
        assert(grown[i] == report[i]);
    }
    if attempt.id == id && attempt.outcome is Ok {
        assert(grown[report.len() as int] == attempt);
    }
    if reported_sent(grown, id) {
        let i = choose|i: int|
            0 <= i < grown.len() && (#[trigger] grown[i]).id == id && grown[i].outcome is Ok;
        if i < report.len() {
            assert(report[i] == grown[i]);
        }
    }
}

impl Store {
    /// Runs one relay cycle: drains up to `batch_size` pending entries, hands
    /// each to `broker` in order and, where the broker confirms, marks the
    /// entry `SENT` at `now`. The report says what became of each entry. An
    /// entry that the broker does not confirm stays `PENDING` and the cycle
    /// goes on with the next one; nothing is marked that the broker has not
    /// confirmed. While a transaction is open nothing can be marked.
    pub fn relay<F: Fn(&OutboxEntry) -> bool>(
        &mut self,
        batch_size: usize,
        now: i64,
        broker: F,
    ) -> (report: Vec<Attempt>)
        requires
            old(self).wf(),
            forall|e: OutboxEntry| call_requires(broker, (&e,)),
        ensures
            final(self).wf(),
            old(self)@.committed.leads_to(final(self)@.committed),
            report@.len() == batch(old(self)@.committed.outbox, batch_size as nat).len(),
            accounts(
                broker,
                old(self)@.staged,
                batch(old(self)@.committed.outbox, batch_size as nat),
                report@,
            ),
            relayed(old(self)@, report@, now, final(self)@),
    {
        let ghost start = self@;
        let ghost entries = batch(start.committed.outbox, batch_size as nat);
        let (relay, step) = Relay::start(batch_size);
        let wanted = match step {
            RelayStep::Drain(n) => n,
            _ => batch_size,
        };
        let drained = self.drain_pending(wanted);
        let (mut relay, mut step) = relay.step(RelayEvent::Drained(drained));
        proof {
            start.committed.leads_to_itself();
            assert forall|id: i32| !reported_sent(Seq::<Attempt>::empty(), id) by {}
        }
        loop
            invariant
                start == old(self)@,
                entries == batch(start.committed.outbox, batch_size as nat),
                start.wf(),
                self.wf(),
                start.committed.leads_to(self@.committed),
                forall|e: OutboxEntry| call_requires(broker, (&e,)),
                relaying(broker, start, batch_size, now, relay@, step@, self@),
            decreases relay@.remaining(),
        {
            match step {
                RelayStep::Forward(entry) => {
                    let confirmed = broker(&entry);
                    let event = if confirmed {
                        RelayEvent::Confirmed
                    } else {
                        RelayEvent::Rejected
                    };
                    proof {
                        relay_kept(broker, start, batch_size, now, relay@, event@, self@, self@);
                    }
                    let (after, then) = relay.step(event);
                    relay = after;
                    step = then;
                },
                RelayStep::MarkSent(id) => {
                    let ghost before = self@;
                    proof {
                        marks_a_row(start, relay@, now, before);
                    }
                    let event = match self.mark_sent(id, now) {
                        Ok(_) => RelayEvent::Marked,
                        Err(_) => RelayEvent::Failed,
                    };
                    proof {
                        relay_kept(broker, start, batch_size, now, relay@, event@, before, self@);
                        start.committed.leads_on(before.committed, self@.committed);
                    }
                    let (after, then) = relay.step(event);
                    relay = after;
                    step = then;
                },
                RelayStep::Rest(report) => {
                    return report;
                },
                _ => {
                    return Vec::new();
                },
            }
        }
    }
}

/// While an entry is being marked, the store holds a row for it: the rows of
/// a batch are rows of the outbox, and no row is ever removed.
proof fn marks_a_row(start: StoreView, state: RelayView, at: i64, now: StoreView)
    requires
        start.wf(),
        state matches RelayView::Marking { entries, at: i, report } && 0 <= i < entries.len()
            && exists|n: nat| entries == batch(start.committed.outbox, n),
        exists|report: Seq<Attempt>| relayed(start, report, at, now),
    ensures
        state matches RelayView::Marking { entries, at: i, .. } && now.committed.has_entry(
            entries[i].id,
        ),
{
    match state {
        RelayView::Marking { entries, at: i, .. } => {
            let e = entries[i];
            let n = choose|n: nat| entries == batch(start.committed.outbox, n);
            assert(queue(start.committed.outbox)[i] == e);
            assert(queue(start.committed.outbox).contains(e));
            queue_members(start.committed.outbox, e);
            let k = choose|k: int|
                0 <= k < start.committed.outbox.len() && start.committed.outbox[k] == e;
            assert(now.committed.outbox[k].id == e.id);
        },
        _ => {},
    }
}

/// Taking the broker's answer, or the outcome of marking, keeps the cycle and
/// the store in step and brings the cycle nearer its end.
proof fn relay_kept<F: Fn(&OutboxEntry) -> bool>(
    broker: F,
    start: StoreView,
    batch_size: usize,
    at: i64,
    state: RelayView,
    event: RelayEventView,
    now: StoreView,
    then: StoreView,
)
    requires
        start.wf(),
        now.wf(),
        state is Forwarding || state is Marking,
        exists|step: RelayStepView| relaying(broker, start, batch_size, at, state, step, now),
        match state {
            RelayView::Forwarding { entries, at: i, .. } => then == now && match event {
                RelayEventView::Confirmed => call_ensures(broker, (&entries[i],), true),
                RelayEventView::Rejected => call_ensures(broker, (&entries[i],), false),
                _ => false,
            },
            RelayView::Marking { entries, at: i, .. } => match event {
                RelayEventView::Marked => now.staged is None && now.committed.has_entry(
                    entries[i].id,
                ) && then == StoreView::settle(now.committed.with_sent(entries[i].id, at)),
                RelayEventView::Failed => now.staged is Some && then == now,
                _ => false,
            },
            _ => false,
        },
    ensures
        relaying(broker, start, batch_size, at, state.next(event).0, state.next(event).1, then),
        state.next(event).0.remaining() < state.remaining(),
{
    let entries = batch(start.committed.outbox, batch_size as nat);
    match state {
        RelayView::Forwarding { entries: e, at: i, report } => {
            if event is Rejected {
                let attempt = Attempt { id: entries[i].id, outcome: Err(Error::PublishError) };
                let grown = report.push(attempt);
                assert forall|id: i32| reported_sent(grown, id) == reported_sent(report, id) by {
                    reported_sent_grows(report, attempt, id);
                }
                assert(accounts(broker, start.staged, entries, grown)) by {
                    assert forall|j: int| 0 <= j < grown.len() implies (#[trigger] grown[j]).id
                        == entries[j].id && match grown[j].outcome {
                        Ok(_) => call_ensures(broker, (&entries[j],), true) && start.staged is None,
                        Err(Error::PublishError) => call_ensures(broker, (&entries[j],), false),
                        Err(x) => x == Error::PersistenceError && call_ensures(
                            broker,
                            (&entries[j],),
                            true,
                        ) && start.staged is Some,
                    } by {
                        if j < report.len() {
                            assert(grown[j] == report[j]);
                        }
                    }
                }
                assert(relayed(start, grown, at, then));
                if i + 1 < entries.len() {
                    assert(entries.skip(i + 2).len() < entries.skip(i + 1).len());
                }
            }
        },
        RelayView::Marking { entries: e, at: i, report } => {
            let outcome: Result<(), Error> = if event is Marked {
                Ok(())
            } else {
                Err(Error::PersistenceError)
            };
            let attempt = Attempt { id: entries[i].id, outcome };
            let grown = report.push(attempt);
            assert(accounts(broker, start.staged, entries, grown)) by {
                assert forall|j: int| 0 <= j < grown.len() implies (#[trigger] grown[j]).id
                    == entries[j].id && match grown[j].outcome {
                    Ok(_) => call_ensures(broker, (&entries[j],), true) && start.staged is None,
                    Err(Error::PublishError) => call_ensures(broker, (&entries[j],), false),
                    Err(x) => x == Error::PersistenceError && call_ensures(
                        broker,
                        (&entries[j],),
                        true,
                    ) && start.staged is Some,
                } by {
                    if j < report.len() {
                        assert(grown[j] == report[j]);
                    }
                }
            }
            assert(relayed(start, grown, at, then)) by {
                let id = entries[i].id;
                assert forall|k: int|
                    0 <= k < start.committed.outbox.len() implies #[trigger] then.committed.outbox[k]
                    == if reported_sent(grown, start.committed.outbox[k].id) {
                    start.committed.outbox[k].sent(at)
                } else {
                    start.committed.outbox[k]
                } by {
                    reported_sent_grows(report, attempt, start.committed.outbox[k].id);
                    assert(now.committed.outbox[k].id == start.committed.outbox[k].id);
                    if event is Marked {
                        let spot = now.committed.entry_at(id);
                        assert(0 <= spot < now.committed.outbox.len()
                            && now.committed.outbox[spot].id == id);
                        if now.committed.outbox[k].id == id {
                            now.committed.entry_found(id, k);
                        }
                    }
                }
            }
            if i + 1 < entries.len() {
                assert(entries.skip(i + 2).len() < entries.skip(i + 1).len());
            }
        },
        _ => {},
    }
}

} // verus!
