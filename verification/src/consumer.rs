//! The consumer of `delivery.order_request`: one message becomes one delivery.
//!
//! The body of a message is JSON text. A body that is no text, or that does
//! not decode to an order request, leaves the message unacknowledged at once.
//! A decoded one runs the creation script; the message is acknowledged after
//! the commit has been confirmed, and left unacknowledged in every other
//! case.

use crate::ack::Settlement;
use crate::creation::Creation;
use crate::error::Error;
use crate::events::DeliveryOrderRequestEvent;
use crate::models::DeliveryEntity;
use crate::storage::{Command, Reply, Step};
use vstd::prelude::*;
use vstd::string::*;
use vstd::utf8::valid_utf8;

verus! {

/// `core::str::from_utf8` of the standard library: it gives the text that the
/// bytes encode if and only if they are valid UTF-8, and the text then has
/// exactly these bytes.
#[verifier::external_body]
fn utf8_text<'a>(bytes: &'a [u8]) -> (r: Option<&'a str>)
    ensures
        r is Some <==> valid_utf8(bytes@),
        r matches Some(text) ==> text.spec_bytes() == bytes@,
{
    core::str::from_utf8(bytes).ok()
}

/// The text of a message body. Fails with `MalformedPayload` if and only if
/// the body is not valid UTF-8.
pub fn body_text<'a>(body: &'a [u8]) -> (r: Result<&'a str, Error>)
    ensures
        match r {
            Ok(text) => valid_utf8(body@) && text.spec_bytes() == body@,
            Err(e) => e == Error::MalformedPayload && !valid_utf8(body@),
        },
{
    match utf8_text(body) {
        Some(text) => Ok(text),
        None => Err(Error::MalformedPayload),
    }
}

/// What the consumer does next.
#[derive(Debug, PartialEq, Eq)]
pub enum ConsumerStep {
    /// Perform this storage command and report the reply.
    Run(Command),
    /// Settle the broker message; the handling is over.
    Settle(Settlement<DeliveryEntity>),
    /// The message was settled earlier; there is nothing left to do.
    Halt,
}

impl ConsumerStep {
    /// The consumer's step for a step of the creation script: commands pass
    /// through, and the script's result settles the message.
    pub open spec fn of(step: Step<DeliveryEntity>) -> ConsumerStep {
        match step {
            Step::Run(cmd) => ConsumerStep::Run(cmd),
            Step::Done(outcome) => ConsumerStep::Settle(Settlement::of(outcome)),
            Step::Halt => ConsumerStep::Halt,
        }
    }

    /// Whether the step settles the message.
    pub open spec fn settles(self) -> bool {
        self is Settle
    }

    /// Whether the step acknowledges the message.
    pub open spec fn acknowledges(self) -> bool {
        self matches ConsumerStep::Settle(s) && s.acknowledged()
    }
}

/// How far the handling of one message has come.
#[derive(Debug, PartialEq, Eq)]
pub enum Consumer {
    /// The creation script is running.
    Creating(Creation),
    /// The message is settled.
    Settled,
}

impl Consumer {
    /// The state for a state of the creation script.
    pub open spec fn of(script: Creation) -> Consumer {
        if script is Closed {
            Consumer::Settled
        } else {
            Consumer::Creating(script)
        }
    }

    /// The state and first step for a message whose body decoded to
    /// `decoded`, or failed to decode if that is `None`.
    pub open spec fn received(decoded: Option<DeliveryOrderRequestEvent>) -> (
        Consumer,
        ConsumerStep,
    ) {
        match decoded {
            None => (
                Consumer::Settled,
                ConsumerStep::Settle(Settlement::Leave(Error::MalformedPayload)),
            ),
            Some(event) => {
                let (script, step) = Creation::started(event.order_id, event.delivery_address);
                (Consumer::of(script), ConsumerStep::of(step))
            },
        }
    }

    /// The state and step that follow when the storage layer answers `reply`.
    pub open spec fn next(self, reply: Reply) -> (Consumer, ConsumerStep) {
        match self {
            Consumer::Creating(script) => {
                let (script, step) = script.next(reply);
                (Consumer::of(script), ConsumerStep::of(step))
            },
            Consumer::Settled => (Consumer::Settled, ConsumerStep::Halt),
        }
    }

    /// How many replies the handling can still take before the message is
    /// settled.
    pub open spec fn remaining(self) -> nat {
        match self {
            Consumer::Creating(Creation::Opening { .. }) => 4,
            Consumer::Creating(Creation::Inserting { .. }) => 3,
            Consumer::Creating(Creation::Announcing { .. }) => 2,
            Consumer::Creating(Creation::Committing { .. }) => 1,
            Consumer::Creating(Creation::Aborting { .. }) => 1,
            Consumer::Creating(Creation::Closed) => 0,
            Consumer::Settled => 0,
        }
    }

    /// The steps that the consumer takes when the storage layer answers
    /// `replies` in turn.
    pub open spec fn run(self, replies: Seq<Reply>) -> Seq<ConsumerStep>
        decreases replies.len(),
    {
        if replies.len() == 0 {
            Seq::empty()
        } else {
            let (after, step) = self.next(replies[0]);
            seq![step] + after.run(replies.drop_first())
        }
    }

    fn wrap(script: Creation, step: Step<DeliveryEntity>) -> (r: (Consumer, ConsumerStep))
        ensures
            r == (Consumer::of(script), ConsumerStep::of(step)),
    {
        let state = match script {
            Creation::Closed => Consumer::Settled,
            other => Consumer::Creating(other),
        };
        let step = match step {
            Step::Run(cmd) => ConsumerStep::Run(cmd),
            Step::Done(outcome) => ConsumerStep::Settle(Settlement::settle(outcome)),
            Step::Halt => ConsumerStep::Halt,
        };
        (state, step)
    }

    /// Takes the reply to the last command and says what comes next.
    pub fn step(self, reply: Reply) -> (r: (Consumer, ConsumerStep))
        ensures
            r == self.next(reply),
    {
        match self {
            Consumer::Creating(script) => {
                let (script, step) = script.step(reply);
                Self::wrap(script, step)
            },
            Consumer::Settled => (Consumer::Settled, ConsumerStep::Halt),
        }
    }
}

/// Starts handling a message from `delivery.order_request` whose body decoded
/// to `decoded`, or failed to decode if that is `None`.
pub fn order_request(decoded: Option<DeliveryOrderRequestEvent>) -> (r: (Consumer, ConsumerStep))
    ensures
        r == Consumer::received(decoded),
{
    match decoded {
        None => (
            Consumer::Settled,
            ConsumerStep::Settle(Settlement::Leave(Error::MalformedPayload)),
        ),
        Some(event) => {
            let (script, step) = Creation::start(event.order_id, event.delivery_address);
            Consumer::wrap(script, step)
        },
    }
}

/// How many of `steps` settle the message.
pub open spec fn settlements(steps: Seq<ConsumerStep>) -> nat
    decreases steps.len(),
{
    if steps.len() == 0 {
        0
    } else if steps[0].settles() {
        1 + settlements(steps.drop_first())
    } else {
        settlements(steps.drop_first())
    }
}

/// The message is acknowledged by the step that follows the confirmed commit,
/// and by no other.
pub proof fn acknowledged_on_commit_only(state: Consumer, reply: Reply)
    ensures
        state.next(reply).1.acknowledges() <==> (state matches Consumer::Creating(
            Creation::Committing { .. },
        ) && reply is Committed),
        state.next(reply).1 matches ConsumerStep::Settle(Settlement::Acknowledge(d)) ==> state
            == Consumer::Creating(Creation::Committing { delivery: d }),
{
}

/// Once the message is settled, every further step is a halt.
pub proof fn settled_for_good(replies: Seq<Reply>)
    ensures
        settlements(Consumer::Settled.run(replies)) == 0,
        forall|i: int|
            0 <= i < replies.len() ==> #[trigger] Consumer::Settled.run(replies)[i]
                == ConsumerStep::Halt,
        Consumer::Settled.run(replies).len() == replies.len(),
    decreases replies.len(),
{
    if replies.len() > 0 {
        settled_for_good(replies.drop_first());
        let steps = Consumer::Settled.run(replies);
        assert(steps.drop_first() =~= Consumer::Settled.run(replies.drop_first()));
        assert forall|i: int| 0 <= i < replies.len() implies #[trigger] steps[i]
            == ConsumerStep::Halt by {
            if i > 0 {
                assert(steps[i] == Consumer::Settled.run(replies.drop_first())[i - 1]);
            }
        }
    }
}

/// Whatever the storage layer answers, the message is settled at most once,
/// and exactly once as soon as enough replies have come in.
pub proof fn settled_exactly_once(state: Consumer, replies: Seq<Reply>)
    ensures
        settlements(state.run(replies)) <= 1,
        state.remaining() > 0 && replies.len() >= state.remaining() ==> settlements(
            state.run(replies),
        ) == 1,
        state.remaining() == 0 ==> settlements(state.run(replies)) == 0,
    decreases replies.len(),
{
    if replies.len() > 0 {
        let (after, step) = state.next(replies[0]);
        let steps = state.run(replies);
        assert(steps.drop_first() =~= after.run(replies.drop_first()));
        assert(steps[0] == step);
        settled_exactly_once(after, replies.drop_first());
        if step.settles() {
            assert(after == Consumer::Settled);
        } else {
            assert(after.remaining() < state.remaining() || state.remaining() == 0);
        }
    }
}

/// A run takes one step for each reply: the first from the state it starts
/// in, the others from the state that follows.
pub proof fn run_unfolds(state: Consumer, replies: Seq<Reply>)
    ensures
        state.run(replies).len() == replies.len(),
        replies.len() > 0 ==> state.run(replies)[0] == state.next(replies[0]).1,
        forall|i: int|
            1 <= i < replies.len() ==> #[trigger] state.run(replies)[i] == state.next(
                replies[0],
            ).0.run(replies.drop_first())[i - 1],
    decreases replies.len(),
{
    if replies.len() > 0 {
        run_unfolds(state.next(replies[0]).0, replies.drop_first());
    }
}

/// The message is acknowledged exactly when the storage layer answered, in
/// turn, that the transaction was opened, the delivery inserted, the event
/// queued and the transaction committed. The acknowledgement is the step that
/// follows the commit's confirmation, and it names the inserted delivery.
pub proof fn acknowledged_after_commit(
    event: DeliveryOrderRequestEvent,
    replies: Seq<Reply>,
    i: int,
)
    requires
        0 <= i < replies.len(),
    ensures
        ({
            let steps = Consumer::received(Some(event)).0.run(replies);
            &&& steps.len() == replies.len()
            &&& steps[i].acknowledges() <==> (i == 3 && replies[0] is Begun
                && replies[1] is DeliveryInserted && replies[2] is OutboxWritten
                && replies[3] is Committed)
            &&& steps[i].acknowledges() ==> steps[i] == ConsumerStep::Settle(
                Settlement::Acknowledge(replies[1]->DeliveryInserted_0),
            )
        }),
{
    let c0 = Consumer::received(Some(event)).0;
    let r0 = replies;
    run_unfolds(c0, r0);
    if i >= 1 {
        let c1 = c0.next(r0[0]).0;
        let r1 = r0.drop_first();
        run_unfolds(c1, r1);
        settled_for_good(r1);
        if i >= 2 && r0[0] is Begun {
            let c2 = c1.next(r1[0]).0;
            let r2 = r1.drop_first();
            run_unfolds(c2, r2);
            if i >= 3 {
                let c3 = c2.next(r2[0]).0;
                let r3 = r2.drop_first();
                run_unfolds(c3, r3);
                settled_for_good(r3);
                if i >= 4 {
                    let c4 = c3.next(r3[0]).0;
                    let r4 = r3.drop_first();
                    run_unfolds(c4, r4);
                    settled_for_good(r4);
                    if i >= 5 {
                        let c5 = c4.next(r4[0]).0;
                        let r5 = r4.drop_first();
                        run_unfolds(c5, r5);
                        settled_for_good(r5);
                        assert(c5 == Consumer::Settled);
                    }
                }
            }
        }
    }
}

} // verus!
