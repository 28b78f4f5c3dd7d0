//! The relay that publishes queued events: one cycle of the outbox publisher.
//!
//! On every interval the publisher drains a batch of pending entries and
//! sends them to the broker in order. An entry is marked `SENT` right after
//! the broker has confirmed it and never before, so a crash leaves the
//! confirmed entries sent and the others pending. An entry that the broker
//! rejects stays pending for the next cycle and does not stop the batch. At
//! the end of the cycle the publisher reports what became of each entry.

use crate::error::Error;
use crate::ledger::Ledger;
use crate::outbox::{batch, queue, queue_members, OutboxEntry};
use vstd::prelude::*;

verus! {

/// What became of one entry in a cycle.
#[derive(Clone, Copy, Debug, PartialEq, Eq)]
pub struct Attempt {
    /// The entry's identifier.
    pub id: i32,
    /// `Ok` if the entry was confirmed and marked `SENT`; `PublishError` if
    /// the broker did not confirm it; `PersistenceError` if it was confirmed
    /// but could not be marked.
    pub outcome: Result<(), Error>,
}

/// What the publisher does next.
#[derive(Debug, PartialEq, Eq)]
pub enum RelayStep {
    /// Read the pending entries, oldest first, at most this many.
    Drain(usize),
    /// Send this entry to the broker and wait for the confirmation.
    Forward(OutboxEntry),
    /// Mark the entry with this identifier as `SENT`.
    MarkSent(i32),
    /// The cycle is over, with this report; wait for the next interval.
    Rest(Vec<Attempt>),
    /// The cycle ended earlier; there is nothing left to do.
    Halt,
}

/// What the publisher's driver reports back.
#[derive(Debug, PartialEq, Eq)]
pub enum RelayEvent {
    /// The pending entries that were read.
    Drained(Vec<OutboxEntry>),
    /// The broker confirmed the entry.
    Confirmed,
    /// The broker was unreachable or rejected the entry.
    Rejected,
    /// The entry is marked `SENT`.
    Marked,
    /// The command could not be carried out.
    Failed,
}

/// How far one cycle has come.
#[derive(Debug, PartialEq, Eq)]
pub enum Relay {
    /// Waiting for the batch.
    Draining,
    /// Waiting for the broker's answer on the entry at `at`.
    Forwarding { entries: Vec<OutboxEntry>, at: usize, report: Vec<Attempt> },
    /// Waiting for the entry at `at` to be marked.
    Marking { entries: Vec<OutboxEntry>, at: usize, report: Vec<Attempt> },
    /// The cycle is over.
    Resting,
}

/// A step of the publisher, as a mathematical value.
pub enum RelayStepView {
    Drain(usize),
    Forward(OutboxEntry),
    MarkSent(i32),
    Rest(Seq<Attempt>),
    Halt,
}

/// A report of the driver, as a mathematical value.
pub enum RelayEventView {
    Drained(Seq<OutboxEntry>),
    Confirmed,
    Rejected,
    Marked,
    Failed,
}

/// A state of the cycle, as a mathematical value.
pub enum RelayView {
    Draining,
    Forwarding { entries: Seq<OutboxEntry>, at: int, report: Seq<Attempt> },
    Marking { entries: Seq<OutboxEntry>, at: int, report: Seq<Attempt> },
    Resting,
}

impl View for RelayStep {
    type V = RelayStepView;

    open spec fn view(&self) -> RelayStepView {
        match *self {
            RelayStep::Drain(n) => RelayStepView::Drain(n),
            RelayStep::Forward(e) => RelayStepView::Forward(e),
            RelayStep::MarkSent(id) => RelayStepView::MarkSent(id),
            RelayStep::Rest(report) => RelayStepView::Rest(report@),
            RelayStep::Halt => RelayStepView::Halt,
        }
    }
}

impl View for RelayEvent {
    type V = RelayEventView;

    open spec fn view(&self) -> RelayEventView {
        match *self {
            RelayEvent::Drained(entries) => RelayEventView::Drained(entries@),
            RelayEvent::Confirmed => RelayEventView::Confirmed,
            RelayEvent::Rejected => RelayEventView::Rejected,
            RelayEvent::Marked => RelayEventView::Marked,
            RelayEvent::Failed => RelayEventView::Failed,
        }
    }
}

impl View for Relay {
    type V = RelayView;

    open spec fn view(&self) -> RelayView {
        match *self {
            Relay::Draining => RelayView::Draining,
            Relay::Forwarding { entries, at, report } => RelayView::Forwarding {
                entries: entries@,
                at: at as int,
                report: report@,
            },
            Relay::Marking { entries, at, report } => RelayView::Marking {
                entries: entries@,
                at: at as int,
                report: report@,
            },
            Relay::Resting => RelayView::Resting,
        }
    }
}

impl RelayView {
    /// The state and first step of a cycle that takes up to `batch_size`
    /// entries.
    pub open spec fn started(batch_size: usize) -> (RelayView, RelayStepView) {
        (RelayView::Draining, RelayStepView::Drain(batch_size))
    }

    /// The state and step that turn to the entry at `at`: it is forwarded, or
    /// the cycle is over if the batch has no such entry.
    pub open spec fn turn_to(entries: Seq<OutboxEntry>, at: int, report: Seq<Attempt>) -> (
        RelayView,
        RelayStepView,
    ) {
        if 0 <= at < entries.len() {
            (RelayView::Forwarding { entries, at, report }, RelayStepView::Forward(entries[at]))
        } else {
            (RelayView::Resting, RelayStepView::Rest(report))
        }
    }

    /// The state and step that record `outcome` for the entry at `at` and
    /// turn to the entry behind it.
    pub open spec fn move_on(
        entries: Seq<OutboxEntry>,
        at: int,
        report: Seq<Attempt>,
        outcome: Result<(), Error>,
    ) -> (RelayView, RelayStepView) {
        if 0 <= at < entries.len() {
            Self::turn_to(entries, at + 1, report.push(Attempt { id: entries[at].id, outcome }))
        } else {
            (RelayView::Resting, RelayStepView::Rest(report))
        }
    }

    /// The state and step that follow when the driver reports `event`.
    pub open spec fn next(self, event: RelayEventView) -> (RelayView, RelayStepView) {
        match self {
            RelayView::Draining => match event {
                RelayEventView::Drained(entries) => Self::turn_to(entries, 0, Seq::empty()),
                _ => (RelayView::Resting, RelayStepView::Rest(Seq::empty())),
            },
            RelayView::Forwarding { entries, at, report } => match event {
                RelayEventView::Confirmed => if 0 <= at < entries.len() {
                    (
                        RelayView::Marking { entries, at, report },
                        RelayStepView::MarkSent(entries[at].id),
                    )
                } else {
                    (RelayView::Resting, RelayStepView::Rest(report))
                },
                _ => Self::move_on(entries, at, report, Err(Error::PublishError)),
            },
            RelayView::Marking { entries, at, report } => match event {
                RelayEventView::Marked => Self::move_on(entries, at, report, Ok(())),
                _ => Self::move_on(entries, at, report, Err(Error::PersistenceError)),
            },
            RelayView::Resting => (RelayView::Resting, RelayStepView::Halt),
        }
    }

    /// The entries that the cycle has not yet turned to.
    pub open spec fn ahead(self) -> Seq<OutboxEntry> {
        match self {
            RelayView::Forwarding { entries, at, .. } => if 0 <= at < entries.len() {
                entries.skip(at + 1)
            } else {
                Seq::empty()
            },
            RelayView::Marking { entries, at, .. } => if 0 <= at < entries.len() {
                entries.skip(at + 1)
            } else {
                Seq::empty()
            },
            _ => Seq::empty(),
        }
    }

    /// How many reports the cycle can take at most before it rests: two for
    /// the current entry and for each entry ahead, one less while the current
    /// entry is being marked.
    pub open spec fn remaining(self) -> nat {
        match self {
            RelayView::Forwarding { .. } => 2 * self.ahead().len() + 2,
            RelayView::Marking { .. } => 2 * self.ahead().len() + 1,
            _ => 0,
        }
    }

    /// Whether the cycle is at an entry of its batch and the report so far has
    /// one attempt for each entry before that one, in the order of the batch.
    pub open spec fn tallied(self) -> bool {
        match self {
            RelayView::Forwarding { entries, at, report } => at < entries.len() && Self::tally(
                entries,
                at,
                report,
            ),
            RelayView::Marking { entries, at, report } => at < entries.len() && Self::tally(
                entries,
                at,
                report,
            ),
            _ => true,
        }
    }

    /// Whether `report` has one attempt for each of the first `at` of
    /// `entries`, in their order.
    pub open spec fn tally(entries: Seq<OutboxEntry>, at: int, report: Seq<Attempt>) -> bool {
        &&& 0 <= at <= entries.len()
        &&& report.len() == at
        &&& forall|i: int| 0 <= i < at ==> (#[trigger] report[i]).id == entries[i].id
    }

    /// The steps that the publisher takes when the driver reports `events` in
    /// turn.
    pub open spec fn run(self, events: Seq<RelayEventView>) -> Seq<RelayStepView>
        decreases events.len(),
    {
        if events.len() == 0 {
            Seq::empty()
        } else {
            let (after, step) = self.next(events[0]);
            seq![step] + after.run(events.drop_first())
        }
    }
}

impl Relay {
    /// Starts a cycle that takes up to `batch_size` entries.
    pub fn start(batch_size: usize) -> (r: (Relay, RelayStep))
        ensures
            (r.0@, r.1@) == RelayView::started(batch_size),
    {
        (Relay::Draining, RelayStep::Drain(batch_size))
    }

    fn forward(entries: Vec<OutboxEntry>, at: usize, report: Vec<Attempt>) -> (r: (
        Relay,
        RelayStep,
    ))
        ensures
            (r.0@, r.1@) == RelayView::turn_to(entries@, at as int, report@),
    {
        if at < entries.len() {
            let entry = entries[at].clone();
            (Relay::Forwarding { entries, at, report }, RelayStep::Forward(entry))
        } else {
            (Relay::Resting, RelayStep::Rest(report))
        }
    }

    fn record(
        entries: Vec<OutboxEntry>,
        at: usize,
        report: Vec<Attempt>,
        outcome: Result<(), Error>,
    ) -> (r: (Relay, RelayStep))
        ensures
            (r.0@, r.1@) == RelayView::move_on(entries@, at as int, report@, outcome),
    {
        if at < entries.len() {
            let mut report = report;
            report.push(Attempt { id: entries[at].id, outcome });
            Self::forward(entries, at + 1, report)
        } else {
            (Relay::Resting, RelayStep::Rest(report))
        }
    }

    /// Takes the report on the last step and says what comes next.
    pub fn step(self, event: RelayEvent) -> (r: (Relay, RelayStep))
        ensures
            (r.0@, r.1@) == self@.next(event@),
    {
        match self {
            Relay::Draining => match event {
                RelayEvent::Drained(entries) => Self::forward(entries, 0, Vec::new()),
                _ => (Relay::Resting, RelayStep::Rest(Vec::new())),
            },
            Relay::Forwarding { entries, at, report } => match event {
                RelayEvent::Confirmed => if at < entries.len() {
                    let id = entries[at].id;
                    (Relay::Marking { entries, at, report }, RelayStep::MarkSent(id))
                } else {
                    (Relay::Resting, RelayStep::Rest(report))
                },
                _ => Self::record(entries, at, report, Err(Error::PublishError)),
            },
            Relay::Marking { entries, at, report } => match event {
                RelayEvent::Marked => Self::record(entries, at, report, Ok(())),
                _ => Self::record(entries, at, report, Err(Error::PersistenceError)),
            },
            Relay::Resting => (Relay::Resting, RelayStep::Halt),
        }
    }
}

/// The entries that `steps` forward, in order.
pub open spec fn forwarded(steps: Seq<RelayStepView>) -> Seq<OutboxEntry>
    decreases steps.len(),
{
    if steps.len() == 0 {
        Seq::empty()
    } else {
        match steps[0] {
            RelayStepView::Forward(e) => seq![e] + forwarded(steps.drop_first()),
            _ => forwarded(steps.drop_first()),
        }
    }
}

/// An entry is marked `SENT` in answer to the broker's confirmation of that
/// entry, and in no other case.
pub proof fn marked_on_confirmation_only(state: RelayView, event: RelayEventView, id: i32)
    ensures
        state.next(event).1 == RelayStepView::MarkSent(id) <==> (state matches RelayView::Forwarding {
            entries,
            at,
            ..
        } && 0 <= at < entries.len() && entries[at].id == id && event is Confirmed),
{
}

/// The report is kept in step with the batch, and when the cycle rests it
/// accounts for every entry: one attempt each, in the order of the batch.
pub proof fn report_accounts_for_all(state: RelayView, event: RelayEventView)
    requires
        state.tallied(),
    ensures
        state.next(event).0.tallied(),
        state.next(event).1 matches RelayStepView::Rest(report) ==> match state {
            RelayView::Forwarding { entries, .. } => RelayView::tally(
                entries,
                entries.len() as int,
                report,
            ),
            RelayView::Marking { entries, .. } => RelayView::tally(
                entries,
                entries.len() as int,
                report,
            ),
            RelayView::Draining => report.len() == 0,
            RelayView::Resting => false,
        },
{
}

/// What the report says of an entry is what happened to it: `Ok` is recorded
/// in answer to the mark of a confirmed entry, `PublishError` in answer to a
/// broker that did not confirm, `PersistenceError` in answer to a failed
/// mark.
pub proof fn report_tells_what_happened(state: RelayView, event: RelayEventView)
    requires
        state.tallied(),
        state is Forwarding || state is Marking,
    ensures
        ({
            let before = match state {
                RelayView::Forwarding { report, .. } => report,
                RelayView::Marking { report, .. } => report,
                _ => Seq::empty(),
            };
            let after = match state.next(event) {
                (RelayView::Forwarding { report, .. }, _) => report,
                (RelayView::Marking { report, .. }, _) => report,
                (_, RelayStepView::Rest(report)) => report,
                _ => Seq::empty(),
            };
            let settled = !(state is Forwarding && event is Confirmed);
            &&& !settled ==> after == before
            &&& settled ==> after.len() == before.len() + 1 && after.drop_last() == before
            &&& settled ==> (after.last().outcome is Ok <==> state is Marking && event is Marked)
            &&& settled ==> (after.last().outcome == Err::<(), Error>(Error::PublishError)
                <==> state is Forwarding)
        }),
{
}

/// A batch that was drained is forwarded from its first entry on.
pub proof fn forwards_from_the_first(entries: Seq<OutboxEntry>)
    ensures
        forwarded(seq![RelayView::Draining.next(RelayEventView::Drained(entries)).1])
            + RelayView::Draining.next(RelayEventView::Drained(entries)).0.ahead() == entries,
{
    let (state, step) = RelayView::Draining.next(RelayEventView::Drained(entries));
    let steps = seq![step];
    assert(steps.drop_first() =~= Seq::<RelayStepView>::empty());
    assert(forwarded(steps.drop_first()) =~= Seq::<OutboxEntry>::empty());
    if 0 < entries.len() {
        assert(forwarded(steps) =~= seq![entries[0]]);
        assert(forwarded(steps) + state.ahead() =~= entries);
    } else {
        assert(forwarded(steps) + state.ahead() =~= entries);
    }
}

/// Whatever the broker answers, the cycle forwards the entries that lie ahead
/// in their order and none else, and it has forwarded them all once it has
/// taken as many reports as can remain: a rejected entry does not stop the
/// batch.
pub proof fn forwards_in_order(state: RelayView, events: Seq<RelayEventView>)
    requires
        !(state is Draining),
    ensures
        forwarded(state.run(events)).len() <= state.ahead().len(),
        forwarded(state.run(events)) == state.ahead().take(
            forwarded(state.run(events)).len() as int,
        ),
        events.len() >= state.remaining() ==> forwarded(state.run(events)) == state.ahead(),
    decreases events.len(),
{
    if events.len() > 0 {
        let (after, step) = state.next(events[0]);
        let steps = state.run(events);
        let rest = after.run(events.drop_first());
        assert(steps.drop_first() =~= rest);
        assert(steps[0] == step);
        forwards_in_order(after, events.drop_first());
        match step {
            RelayStepView::Forward(e) => {
                assert(forwarded(steps) == seq![e] + forwarded(rest));
                assert(state.ahead().len() > 0);
                assert(state.ahead()[0] == e);
                assert(after.ahead() =~= state.ahead().skip(1));
                assert(forwarded(steps) =~= state.ahead().take(forwarded(steps).len() as int));
                if events.len() >= state.remaining() {
                    assert(forwarded(steps) =~= state.ahead());
                }
            },
            _ => {
                assert(forwarded(steps) == forwarded(rest));
                assert(after.ahead() =~= state.ahead() || state.ahead().len() == 0);
            },
        }
    } else {
        assert(forwarded(state.run(events)) =~= state.ahead().take(0));
    }
}

/// Two drains of the same committed outbox return the same entries.
pub proof fn drain_repeats(first: Ledger, second: Ledger, n: nat)
    requires
        first.outbox == second.outbox,
    ensures
        batch(first.outbox, n) == batch(second.outbox, n),
{
}

/// Once an entry is marked `SENT`, no later drain returns it.
pub proof fn sent_stays_out(marked: Ledger, id: i32, now: i64, later: Ledger, n: nat)
    requires
        marked.wf(),
        marked.has_entry(id),
        later.wf(),
        marked.with_sent(id, now).leads_to(later),
    ensures
        forall|i: int|
            0 <= i < batch(later.outbox, n).len() ==> (#[trigger] batch(later.outbox, n)[i]).id
                != id,
{
    let at = marked.entry_at(id);
    assert(0 <= at < marked.outbox.len() && marked.outbox[at].id == id);
    let sent = marked.with_sent(id, now);
    assert(sent.outbox[at].same_entry(later.outbox[at]));
    assert(!sent.outbox[at].pending());
    assert forall|i: int| 0 <= i < batch(later.outbox, n).len() implies (#[trigger] batch(
        later.outbox,
        n,
    )[i]).id != id by {
        let e = batch(later.outbox, n)[i];
        assert(queue(later.outbox)[i] == e);
        assert(queue(later.outbox).contains(e));
        queue_members(later.outbox, e);
        let k = choose|k: int| 0 <= k < later.outbox.len() && later.outbox[k] == e;
        if e.id == id {
            later.entry_found(id, k);
            later.entry_found(id, at);
        }
    }
}

} // verus!
