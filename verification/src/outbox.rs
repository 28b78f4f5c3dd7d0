//! Outbox entries and the order in which they are relayed.
//!
//! An entry is written `PENDING` in the transaction of the change it
//! announces, relayed to the broker later, and then marked `SENT`. Pending
//! entries are relayed oldest first: by creation time, and by identifier among
//! entries created at the same instant.

use crate::events::OutboundEvent;
use crate::status::OutboxStatus;
use vstd::prelude::*;

verus! {

/// One queued event.
#[derive(Debug, PartialEq, Eq)]
pub struct OutboxEntry {
    pub id: i32,
    pub event_type: String,
    pub payload: String,
    pub status: OutboxStatus,
    pub created_at: i64,
    pub updated_at: i64,
}

impl Clone for OutboxEntry {
    fn clone(&self) -> (r: Self)
        ensures
            r == *self,
    {
        OutboxEntry {
            id: self.id,
            event_type: self.event_type.clone(),
            payload: self.payload.clone(),
            status: self.status,
            created_at: self.created_at,
            updated_at: self.updated_at,
        }
    }
}

impl OutboxEntry {
    /// The entry that is written for `event_type` and `payload` at `now` under
    /// the identifier `id`: it starts `PENDING`.
    pub open spec fn written(id: i32, event_type: String, payload: String, now: i64) -> OutboxEntry {
        OutboxEntry {
            id,
            event_type,
            payload,
            status: OutboxStatus::Pending,
            created_at: now,
            updated_at: now,
        }
    }

    /// This entry after the broker confirmed it at `now`.
    pub open spec fn sent(self, now: i64) -> OutboxEntry {
        OutboxEntry { status: OutboxStatus::Sent, updated_at: now, ..self }
    }

    /// Whether the entry still waits to be relayed.
    pub open spec fn pending(self) -> bool {
        self.status == OutboxStatus::Pending
    }

    /// Whether the entry holds `event`: its topic as the tag and its JSON text
    /// as the payload.
    pub open spec fn carries(self, event: OutboundEvent) -> bool {
        &&& self.event_type@ == event.topic()
        &&& self.payload@ == event.payload()
    }

    /// Whether this entry is relayed before `other`: it was created earlier,
    /// or at the same instant under a smaller identifier.
    pub open spec fn precedes(self, other: OutboxEntry) -> bool {
        self.created_at < other.created_at || (self.created_at == other.created_at && self.id
            < other.id)
    }

    /// Whether `later` is this entry at a later time: what it says never
    /// changes, and once `SENT` it stays `SENT`.
    pub open spec fn same_entry(self, later: OutboxEntry) -> bool {
        &&& later.id == self.id
        &&& later.event_type == self.event_type
        &&& later.payload == self.payload
        &&& later.created_at == self.created_at
        &&& !self.pending() ==> !later.pending()
    }

    /// Whether the entry still waits to be relayed.
    pub fn is_pending(&self) -> (r: bool)
        ensures
            r == self.pending(),
    {
        match self.status {
            OutboxStatus::Pending => true,
            OutboxStatus::Sent => false,
        }
    }

    /// Whether this entry is relayed before `other`.
    pub fn goes_before(&self, other: &OutboxEntry) -> (r: bool)
        ensures
            r == self.precedes(*other),
    {
        self.created_at < other.created_at || (self.created_at == other.created_at && self.id
            < other.id)
    }
}

/// Where `e` goes in the queue `q`: right behind the last entry that precedes it.
pub open spec fn slot(q: Seq<OutboxEntry>, e: OutboxEntry) -> int
    decreases q.len(),
{
    if q.len() == 0 {
        0
    } else if q.last().precedes(e) {
        q.len() as int
    } else {
        slot(q.drop_last(), e)
    }
}

/// The pending entries among `rows`, in the order in which they are relayed.
pub open spec fn queue(rows: Seq<OutboxEntry>) -> Seq<OutboxEntry>
    decreases rows.len(),
{
    if rows.len() == 0 {
        Seq::empty()
    } else {
        let earlier = queue(rows.drop_last());
        if rows.last().pending() {
            earlier.insert(slot(earlier, rows.last()), rows.last())
        } else {
            earlier
        }
    }
}

/// The first `n` entries of the queue of `rows`, or all of it if it is shorter.
pub open spec fn batch(rows: Seq<OutboxEntry>, n: nat) -> Seq<OutboxEntry> {
    let q = queue(rows);
    if n < q.len() {
        q.take(n as int)
    } else {
        q
    }
}

/// How many of `rows` are tagged with `topic`.
pub open spec fn entries_on(rows: Seq<OutboxEntry>, topic: Seq<char>) -> nat
    decreases rows.len(),
{
    if rows.len() == 0 {
        0
    } else if rows.last().event_type@ == topic {
        entries_on(rows.drop_last(), topic) + 1
    } else {
        entries_on(rows.drop_last(), topic)
    }
}

/// Whether no two of `rows` share an identifier.
pub open spec fn distinct_ids(rows: Seq<OutboxEntry>) -> bool {
    forall|i: int, j: int| 0 <= i < j < rows.len() ==> rows[i].id != rows[j].id
}

/// Whether each entry of `q` precedes all that follow it.
pub open spec fn ordered(q: Seq<OutboxEntry>) -> bool {
    forall|i: int, j: int| 0 <= i < j < q.len() ==> q[i].precedes(q[j])
}

/// `slot` is a position of `q`; the entry before it precedes `e`, and no entry
/// from it on does.
pub proof fn slot_bounds(q: Seq<OutboxEntry>, e: OutboxEntry)
    ensures
        0 <= slot(q, e) <= q.len(),
        slot(q, e) > 0 ==> q[slot(q, e) - 1].precedes(e),
        forall|j: int| slot(q, e) <= j < q.len() ==> !q[j].precedes(e),
    decreases q.len(),
{
    if q.len() > 0 && !q.last().precedes(e) {
        slot_bounds(q.drop_last(), e);
        assert forall|j: int| slot(q, e) <= j < q.len() implies !q[j].precedes(e) by {
            if j < q.len() - 1 {
                assert(q.drop_last()[j] == q[j]);
            }
        }
    }
}

/// A position with the properties of `slot` is the slot.
pub proof fn slot_found(q: Seq<OutboxEntry>, e: OutboxEntry, p: int)
    requires
        0 <= p <= q.len(),
        p > 0 ==> q[p - 1].precedes(e),
        forall|j: int| p <= j < q.len() ==> !q[j].precedes(e),
    ensures
        slot(q, e) == p,
    decreases q.len(),
{
    if q.len() > 0 && !q.last().precedes(e) {
        slot_found(q.drop_last(), e, p);
    }
}

/// The queue holds exactly the pending entries of `rows`.
pub proof fn queue_members(rows: Seq<OutboxEntry>, e: OutboxEntry)
    ensures
        queue(rows).contains(e) <==> rows.contains(e) && e.pending(),
    decreases rows.len(),
{
    if rows.len() > 0 {
        let earlier = queue(rows.drop_last());
        let last = rows.last();
        queue_members(rows.drop_last(), e);
        slot_bounds(earlier, last);
        let p = slot(earlier, last);
        if rows.contains(e) {
            let i = choose|i: int| 0 <= i < rows.len() && rows[i] == e;
            if i < rows.len() - 1 {
                assert(rows.drop_last()[i] == e);
            }
        }
        if rows.drop_last().contains(e) {
            let i = choose|i: int| 0 <= i < rows.drop_last().len() && rows.drop_last()[i] == e;
            assert(rows[i] == e);
        }
        if last.pending() {
            let q = earlier.insert(p, last);
            assert(q[p] == last);
            if earlier.contains(e) {
                let i = choose|i: int| 0 <= i < earlier.len() && earlier[i] == e;
                if i < p {
                    assert(q[i] == e);
                } else {
                    assert(q[i + 1] == e);
                }
            }
            if q.contains(e) {
                let i = choose|i: int| 0 <= i < q.len() && q[i] == e;
                if i < p {
                    assert(earlier[i] == e);
                } else if i > p {
                    assert(earlier[i - 1] == e);
                }
            }
        }
    }
}

/// The queue has no more entries than `rows`.
pub proof fn queue_len(rows: Seq<OutboxEntry>)
    ensures
        queue(rows).len() <= rows.len(),
    decreases rows.len(),
{
    if rows.len() > 0 {
        queue_len(rows.drop_last());
        slot_bounds(queue(rows.drop_last()), rows.last());
    }
}

/// Where identifiers are distinct, the queue is ordered: oldest first.
pub proof fn queue_ordered(rows: Seq<OutboxEntry>)
    requires
        distinct_ids(rows),
    ensures
        ordered(queue(rows)),
    decreases rows.len(),
{
    if rows.len() > 0 {
        let earlier = queue(rows.drop_last());
        let last = rows.last();
        queue_ordered(rows.drop_last());
        if last.pending() {
            slot_bounds(earlier, last);
            let p = slot(earlier, last);
            let q = earlier.insert(p, last);
            assert forall|i: int, j: int| 0 <= i < j < q.len() implies q[i].precedes(q[j]) by {
                if j == p {
                    // q[i] is earlier[i] with i < p
                    if i < p - 1 {
                        assert(earlier[i].precedes(earlier[p - 1]));
                    }
                } else if i == p {
                    // q[j] is earlier[j - 1], which does not precede `last`
                    let x = earlier[j - 1];
                    queue_members(rows.drop_last(), x);
                    assert(earlier.contains(x));
                    let k = choose|k: int| 0 <= k < rows.drop_last().len() && rows.drop_last()[k] == x;
                    assert(rows[k] == x);
                    assert(x.id != last.id);
                } else if i < p && j < p {
                    assert(earlier[i].precedes(earlier[j]));
                } else if i < p {
                    assert(earlier[i].precedes(earlier[j - 1]));
                } else {
                    assert(earlier[i - 1].precedes(earlier[j - 1]));
                }
            }
        }
    }
}

/// Two ordered sequences with the same members are the same sequence.
pub proof fn ordered_is_unique(a: Seq<OutboxEntry>, b: Seq<OutboxEntry>)
    requires
        ordered(a),
        ordered(b),
        forall|e: OutboxEntry|
            #![trigger a.contains(e)]
            #![trigger b.contains(e)]
            a.contains(e) <==> b.contains(e),
    ensures
        a == b,
    decreases a.len(),
{
    if a.len() == 0 {
        if b.len() > 0 {
            assert(b.contains(b[0]));
        }
        assert(a =~= b);
    } else {
        let top = a.last();
        assert(a.contains(top));
        let j = choose|j: int| 0 <= j < b.len() && b[j] == top;
        if j < b.len() - 1 {
            assert(b[j].precedes(b.last()));
            assert(b.contains(b.last()));
            let k = choose|k: int| 0 <= k < a.len() && a[k] == b.last();
            if k < a.len() - 1 {
                assert(a[k].precedes(a.last()));
            }
        }
        assert(b.last() == top);
        let shorter = a.drop_last();
        let other = b.drop_last();
        assert forall|e: OutboxEntry|
            #![trigger shorter.contains(e)]
            #![trigger other.contains(e)]
            shorter.contains(e) <==> other.contains(e) by {
            if shorter.contains(e) {
                let i = choose|i: int| 0 <= i < shorter.len() && shorter[i] == e;
                assert(a[i].precedes(a.last()));
                assert(a.contains(e));
                let m = choose|m: int| 0 <= m < b.len() && b[m] == e;
                assert(other[m] == e);
            }
            if other.contains(e) {
                let i = choose|i: int| 0 <= i < other.len() && other[i] == e;
                assert(b[i].precedes(b.last()));
                assert(b.contains(e));
                let m = choose|m: int| 0 <= m < a.len() && a[m] == e;
                assert(shorter[m] == e);
            }
        }
        ordered_is_unique(shorter, other);
        assert(a =~= shorter.push(top));
        assert(b =~= other.push(top));
    }
}

/// Where identifiers are distinct, the queue is the one sequence that holds
/// exactly the pending entries of `rows`, each once, oldest first.
pub proof fn queue_is_determined(rows: Seq<OutboxEntry>, q: Seq<OutboxEntry>)
    requires
        distinct_ids(rows),
        ordered(q),
        forall|e: OutboxEntry|
            #![trigger q.contains(e)]
            q.contains(e) <==> rows.contains(e) && e.pending(),
    ensures
        q == queue(rows),
{
    queue_ordered(rows);
    assert forall|e: OutboxEntry|
        #![trigger q.contains(e)]
        #![trigger queue(rows).contains(e)]
        q.contains(e) <==> queue(rows).contains(e) by {
        queue_members(rows, e);
    }
    ordered_is_unique(q, queue(rows));
}

/// The pending entries of `rows` in relay order, at most `batch_size` of them.
pub fn pending_batch(rows: &Vec<OutboxEntry>, batch_size: usize) -> (r: Vec<OutboxEntry>)
    ensures
        r@ == batch(rows@, batch_size as nat),
{
    let mut out: Vec<OutboxEntry> = Vec::new();
    let mut i: usize = 0;
    while i < rows.len()
        invariant
            i <= rows.len(),
            out@ == queue(rows@.take(i as int)),
        decreases rows.len() - i,
    {
        proof {
            assert(rows@.take(i + 1).drop_last() == rows@.take(i as int));
            assert(rows@.take(i + 1).last() == rows@[i as int]);
            queue_len(rows@.take(i as int));
        }
        if rows[i].is_pending() {
            let mut p: usize = out.len();
            while p > 0 && !out[p - 1].goes_before(&rows[i])
                invariant
                    i < rows.len(),
                    p <= out.len(),
                    forall|j: int| p <= j < out.len() ==> !out@[j].precedes(rows@[i as int]),
                decreases p,
            {
                p = p - 1;
            }
            proof {
                slot_found(out@, rows@[i as int], p as int);
            }
            out.insert(p, rows[i].clone());
        }
        i = i + 1;
    }
    assert(rows@.take(rows.len() as int) == rows@);
    out.truncate(batch_size);
    assert(out@ == batch(rows@, batch_size as nat));
    out
}

} // verus!
