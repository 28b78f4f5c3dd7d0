use medbook_deliveryservice::error::Error;
use medbook_deliveryservice::outbox::OutboxEntry;
use medbook_deliveryservice::publisher::{Attempt, Relay, RelayEvent, RelayStep};
use medbook_deliveryservice::status::OutboxStatus;
use medbook_deliveryservice::store::Store;

fn entry(id: i32, created_at: i64) -> OutboxEntry {
    OutboxEntry {
        id,
        event_type: "orders.delivery_created".to_string(),
        payload: format!("{{\"order_id\":{}}}", id),
        status: OutboxStatus::Pending,
        created_at,
        updated_at: created_at,
    }
}

fn store_with_entries(count: i32) -> Store {
    let mut store = Store::new();
    store.begin().unwrap();
    for n in 0..count {
        store.publish("orders.delivery_created".to_string(), format!("{}", n), 100 + n as i64).unwrap();
    }
    store.commit().unwrap();
    store
}

fn cycle(store: &mut Store, batch_size: usize, rejected: &[i32], now: i64) -> (Vec<i32>, Vec<Attempt>) {
    let mut forwarded = Vec::new();
    let (mut state, mut step) = Relay::start(batch_size);
    loop {
        let event = match step {
            RelayStep::Drain(n) => RelayEvent::Drained(store.drain_pending(n)),
            RelayStep::Forward(e) => {
                forwarded.push(e.id);
                if rejected.contains(&e.id) {
                    RelayEvent::Rejected
                } else {
                    RelayEvent::Confirmed
                }
            }
            RelayStep::MarkSent(id) => match store.mark_sent(id, now) {
                Ok(()) => RelayEvent::Marked,
                Err(_) => RelayEvent::Failed,
            },
            RelayStep::Rest(report) => return (forwarded, report),
            RelayStep::Halt => unreachable!(),
        };
        let (after, then) = state.step(event);
        state = after;
        step = then;
    }
}

#[test]
fn a_cycle_starts_by_draining() {
    let (state, step) = Relay::start(25);
    assert_eq!(step, RelayStep::Drain(25));
    assert_eq!(state, Relay::Draining);
}

#[test]
fn an_empty_batch_ends_the_cycle() {
    let (state, _) = Relay::start(25);
    let (state, step) = state.step(RelayEvent::Drained(Vec::new()));
    assert_eq!(step, RelayStep::Rest(Vec::new()));
    assert_eq!(state, Relay::Resting);
    let (state, step) = state.step(RelayEvent::Confirmed);
    assert_eq!(step, RelayStep::Halt);
    assert_eq!(state, Relay::Resting);
}

#[test]
fn a_failed_drain_ends_the_cycle() {
    let (state, _) = Relay::start(25);
    let (state, step) = state.step(RelayEvent::Failed);
    assert_eq!(step, RelayStep::Rest(Vec::new()));
    assert_eq!(state, Relay::Resting);
}

#[test]
fn an_entry_is_marked_only_after_the_broker_confirmed_it() {
    let (state, _) = Relay::start(2);
    let (state, step) = state.step(RelayEvent::Drained(vec![entry(4, 10), entry(6, 20)]));
    assert_eq!(step, RelayStep::Forward(entry(4, 10)));
    let (state, step) = state.step(RelayEvent::Confirmed);
    assert_eq!(step, RelayStep::MarkSent(4));
    let (state, step) = state.step(RelayEvent::Marked);
    assert_eq!(step, RelayStep::Forward(entry(6, 20)));
    let (state, step) = state.step(RelayEvent::Rejected);
    assert_eq!(
        step,
        RelayStep::Rest(vec![
            Attempt { id: 4, outcome: Ok(()) },
            Attempt { id: 6, outcome: Err(Error::PublishError) },
        ])
    );
    assert_eq!(state, Relay::Resting);
}

#[test]
fn a_rejected_entry_does_not_stop_the_batch() {
    let (state, _) = Relay::start(3);
    let (state, step) = state.step(RelayEvent::Drained(vec![entry(1, 10), entry(2, 20), entry(3, 30)]));
    assert_eq!(step, RelayStep::Forward(entry(1, 10)));
    let (state, step) = state.step(RelayEvent::Rejected);
    assert_eq!(step, RelayStep::Forward(entry(2, 20)));
    let (state, step) = state.step(RelayEvent::Failed);
    assert_eq!(step, RelayStep::Forward(entry(3, 30)));
    let (state, step) = state.step(RelayEvent::Confirmed);
    assert_eq!(step, RelayStep::MarkSent(3));
    let (_, step) = state.step(RelayEvent::Marked);
    assert_eq!(
        step,
        RelayStep::Rest(vec![
            Attempt { id: 1, outcome: Err(Error::PublishError) },
            Attempt { id: 2, outcome: Err(Error::PublishError) },
            Attempt { id: 3, outcome: Ok(()) },
        ])
    );
}

#[test]
fn a_failed_mark_is_reported_and_the_batch_goes_on() {
    let (state, _) = Relay::start(2);
    let (state, _) = state.step(RelayEvent::Drained(vec![entry(1, 10), entry(2, 20)]));
    let (state, step) = state.step(RelayEvent::Confirmed);
    assert_eq!(step, RelayStep::MarkSent(1));
    let (state, step) = state.step(RelayEvent::Failed);
    assert_eq!(step, RelayStep::Forward(entry(2, 20)));
    let (state, _) = state.step(RelayEvent::Confirmed);
    let (_, step) = state.step(RelayEvent::Marked);
    assert_eq!(
        step,
        RelayStep::Rest(vec![
            Attempt { id: 1, outcome: Err(Error::PersistenceError) },
            Attempt { id: 2, outcome: Ok(()) },
        ])
    );
}

#[test]
fn a_cycle_against_the_store_marks_what_the_broker_confirmed() {
    let mut store = store_with_entries(4);
    let (forwarded, report) = cycle(&mut store, 10, &[2, 3], 900);
    assert_eq!(forwarded, vec![1, 2, 3, 4]);
    assert_eq!(
        report,
        vec![
            Attempt { id: 1, outcome: Ok(()) },
            Attempt { id: 2, outcome: Err(Error::PublishError) },
            Attempt { id: 3, outcome: Err(Error::PublishError) },
            Attempt { id: 4, outcome: Ok(()) },
        ]
    );
    let statuses: Vec<OutboxStatus> = store.outbox().iter().map(|e| e.status).collect();
    assert_eq!(
        statuses,
        vec![OutboxStatus::Sent, OutboxStatus::Pending, OutboxStatus::Pending, OutboxStatus::Sent]
    );
    assert_eq!(store.outbox()[0].updated_at, 900);

    let (forwarded, report) = cycle(&mut store, 10, &[], 950);
    assert_eq!(forwarded, vec![2, 3]);
    assert_eq!(report.len(), 2);
    assert!(report.iter().all(|a| a.outcome.is_ok()));
    assert!(store.drain_pending(10).is_empty());
    let (forwarded, report) = cycle(&mut store, 10, &[], 990);
    assert!(forwarded.is_empty());
    assert!(report.is_empty());
    assert_eq!(store.outbox().len(), 4);
}

#[test]
fn a_cycle_takes_at_most_one_batch() {
    let mut store = store_with_entries(5);
    let (forwarded, report) = cycle(&mut store, 2, &[], 900);
    assert_eq!(forwarded, vec![1, 2]);
    assert_eq!(report.len(), 2);
    let (forwarded, _) = cycle(&mut store, 2, &[3], 910);
    assert_eq!(forwarded, vec![3, 4]);
    let (forwarded, _) = cycle(&mut store, 2, &[], 920);
    assert_eq!(forwarded, vec![3, 5]);
    assert!(store.drain_pending(10).is_empty());
}

#[test]
fn a_mark_that_the_store_refuses_leaves_the_entry_pending() {
    let mut store = store_with_entries(1);
    store.begin().unwrap();
    let (forwarded, report) = cycle(&mut store, 10, &[], 900);
    assert_eq!(forwarded, vec![1]);
    assert_eq!(report, vec![Attempt { id: 1, outcome: Err(Error::PersistenceError) }]);
    store.rollback();
    assert_eq!(store.outbox()[0].status, OutboxStatus::Pending);
    assert_eq!(store.drain_pending(10).len(), 1);
}

#[test]
fn relay_marks_exactly_what_the_broker_confirmed() {
    let mut store = store_with_entries(5);
    let report = store.relay(4, 900, |e| e.id % 2 == 1);
    assert_eq!(
        report,
        vec![
            Attempt { id: 1, outcome: Ok(()) },
            Attempt { id: 2, outcome: Err(Error::PublishError) },
            Attempt { id: 3, outcome: Ok(()) },
            Attempt { id: 4, outcome: Err(Error::PublishError) },
        ]
    );
    let statuses: Vec<OutboxStatus> = store.outbox().iter().map(|e| e.status).collect();
    assert_eq!(
        statuses,
        vec![
            OutboxStatus::Sent,
            OutboxStatus::Pending,
            OutboxStatus::Sent,
            OutboxStatus::Pending,
            OutboxStatus::Pending,
        ]
    );
    assert_eq!(store.outbox()[0].updated_at, 900);
    assert_eq!(store.outbox()[1].updated_at, 101);
    assert_eq!(store.outbox()[2].payload, "2");

    let report = store.relay(10, 950, |_| true);
    assert_eq!(report.iter().map(|a| a.id).collect::<Vec<i32>>(), vec![2, 4, 5]);
    assert!(report.iter().all(|a| a.outcome == Ok(())));
    assert!(store.drain_pending(10).is_empty());
    assert!(store.relay(10, 990, |_| true).is_empty());
}

#[test]
fn relay_hands_the_entries_to_the_broker_oldest_first() {
    let mut store = Store::new();
    store.begin().unwrap();
    store.publish("a".to_string(), "late".to_string(), 300).unwrap();
    store.publish("b".to_string(), "early".to_string(), 100).unwrap();
    store.publish("c".to_string(), "middle".to_string(), 200).unwrap();
    store.commit().unwrap();
    let seen = std::cell::RefCell::new(Vec::new());
    let report = store.relay(10, 900, |e| {
        seen.borrow_mut().push(e.payload.clone());
        false
    });
    assert_eq!(seen.into_inner(), vec!["early", "middle", "late"]);
    assert_eq!(report.iter().map(|a| a.id).collect::<Vec<i32>>(), vec![2, 3, 1]);
    assert!(report.iter().all(|a| a.outcome == Err(Error::PublishError)));
    assert_eq!(store.drain_pending(10).len(), 3);
}

#[test]
fn relay_inside_an_open_transaction_marks_nothing() {
    let mut store = store_with_entries(2);
    store.begin().unwrap();
    let report = store.relay(10, 900, |e| e.id == 1);
    assert_eq!(
        report,
        vec![
            Attempt { id: 1, outcome: Err(Error::PersistenceError) },
            Attempt { id: 2, outcome: Err(Error::PublishError) },
        ]
    );
    assert!(store.in_transaction());
    store.rollback();
    assert_eq!(store.drain_pending(10).len(), 2);
}
