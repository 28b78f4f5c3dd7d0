use medbook_deliveryservice::creation::Creation;
use medbook_deliveryservice::error::Error;
use medbook_deliveryservice::events::{DeliveryCreatedEvent, DeliverySuccessEvent, OutboundEvent};
use medbook_deliveryservice::models::{
    CreateDeliveryEntity, CreateDeliveryLogEntity, DeliveryEntity, DeliveryLogEntity,
};
use medbook_deliveryservice::outbox::OutboxEntry;
use medbook_deliveryservice::status::{DeliveryStatus, OutboxStatus, TransitionPolicy};
use medbook_deliveryservice::storage::{Command, Reply, Step};
use medbook_deliveryservice::transition::{
    Transition, UpdateDeliveryStateReq, UpdateDeliveryStateRes,
};

fn address() -> serde_json::Value {
    serde_json::Value::String("1 Main St".to_string())
}

fn delivery(id: u128, order_id: i32, status: DeliveryStatus) -> DeliveryEntity {
    DeliveryEntity {
        id,
        delivery_address: address(),
        order_id,
        status,
        created_at: 100,
        updated_at: 100,
    }
}

fn entry() -> OutboxEntry {
    OutboxEntry {
        id: 1,
        event_type: "t".to_string(),
        payload: "p".to_string(),
        status: OutboxStatus::Pending,
        created_at: 1,
        updated_at: 1,
    }
}

fn log(id: u128, delivery_id: u128, status: DeliveryStatus) -> DeliveryLogEntity {
    DeliveryLogEntity {
        id,
        delivery_id,
        description: "left at door".to_string(),
        status,
        created_at: 200,
        updated_at: 200,
    }
}

fn request(status: &str) -> UpdateDeliveryStateReq {
    UpdateDeliveryStateReq { status: status.to_string(), description: "left at door".to_string() }
}

#[test]
fn creation_script_runs_begin_insert_announce_commit() {
    let (state, step) = Creation::start(42, address());
    assert_eq!(step, Step::Run(Command::Begin));
    let (state, step) = state.step(Reply::Begun);
    assert_eq!(
        step,
        Step::Run(Command::InsertDelivery(CreateDeliveryEntity {
            delivery_address: address(),
            order_id: 42,
            status: DeliveryStatus::Preparing,
        }))
    );
    let d = delivery(7, 42, DeliveryStatus::Preparing);
    let (state, step) = state.step(Reply::DeliveryInserted(d.clone()));
    assert_eq!(
        step,
        Step::Run(Command::WriteOutbox(OutboundEvent::DeliveryCreated(DeliveryCreatedEvent {
            order_id: 42,
            delivery_id: 7,
        })))
    );
    let (state, step) = state.step(Reply::OutboxWritten(entry()));
    assert_eq!(step, Step::Run(Command::Commit));
    let (state, step) = state.step(Reply::Committed);
    assert_eq!(step, Step::Done(Ok(d)));
    assert_eq!(state, Creation::Closed);
    let (state, step) = state.step(Reply::Committed);
    assert_eq!(step, Step::Halt);
    assert_eq!(state, Creation::Closed);
}

#[test]
fn creation_without_a_transaction_ends_at_once() {
    let (state, _) = Creation::start(42, address());
    let (state, step) = state.step(Reply::Failed);
    assert_eq!(step, Step::Done(Err(Error::PersistenceError)));
    assert_eq!(state, Creation::Closed);
}

#[test]
fn creation_rolls_back_when_the_insert_fails() {
    let (state, _) = Creation::start(42, address());
    let (state, _) = state.step(Reply::Begun);
    let (state, step) = state.step(Reply::Failed);
    assert_eq!(step, Step::Run(Command::Rollback));
    let (state, step) = state.step(Reply::RolledBack);
    assert_eq!(step, Step::Done(Err(Error::PersistenceError)));
    assert_eq!(state, Creation::Closed);
}

#[test]
fn creation_rolls_back_when_the_outbox_write_fails() {
    let (state, _) = Creation::start(42, address());
    let (state, _) = state.step(Reply::Begun);
    let (state, _) = state.step(Reply::DeliveryInserted(delivery(7, 42, DeliveryStatus::Preparing)));
    let (state, step) = state.step(Reply::Failed);
    assert_eq!(step, Step::Run(Command::Rollback));
    let (_, step) = state.step(Reply::Failed);
    assert_eq!(step, Step::Done(Err(Error::PersistenceError)));
}

#[test]
fn creation_fails_when_the_commit_fails() {
    let (state, _) = Creation::start(42, address());
    let (state, _) = state.step(Reply::Begun);
    let (state, _) = state.step(Reply::DeliveryInserted(delivery(7, 42, DeliveryStatus::Preparing)));
    let (state, _) = state.step(Reply::OutboxWritten(entry()));
    let (state, step) = state.step(Reply::Failed);
    assert_eq!(step, Step::Done(Err(Error::PersistenceError)));
    assert_eq!(state, Creation::Closed);
}

#[test]
fn transition_to_an_unlisted_status_touches_no_storage() {
    for name in ["CANCELLED", "", "preparing", "EN-ROUTE", " DELIVERED"] {
        let (state, step) = Transition::start(7, request(name), TransitionPolicy::AnyListed);
        assert_eq!(step, Step::Done(Err(Error::InvalidTransition)));
        assert_eq!(state, Transition::Closed);
        let (state, step) = Transition::start(7, request(name), TransitionPolicy::Sequential);
        assert_eq!(step, Step::Done(Err(Error::InvalidTransition)));
        assert_eq!(state, Transition::Closed);
    }
}

#[test]
fn transition_script_into_delivered_announces_success() {
    let (state, step) = Transition::start(7, request("DELIVERED"), TransitionPolicy::AnyListed);
    assert_eq!(step, Step::Run(Command::Begin));
    let (state, step) = state.step(Reply::Begun);
    assert_eq!(
        step,
        Step::Run(Command::UpdateStatus { id: 7, status: DeliveryStatus::Delivered })
    );
    let d = delivery(7, 42, DeliveryStatus::Delivered);
    let (state, step) = state.step(Reply::DeliveryUpdated(d.clone()));
    assert_eq!(
        step,
        Step::Run(Command::InsertLog(CreateDeliveryLogEntity {
            delivery_id: 7,
            description: "left at door".to_string(),
            status: DeliveryStatus::Delivered,
        }))
    );
    let l = log(9, 7, DeliveryStatus::Delivered);
    let (state, step) = state.step(Reply::LogInserted(l.clone()));
    assert_eq!(
        step,
        Step::Run(Command::WriteOutbox(OutboundEvent::DeliverySuccess(DeliverySuccessEvent {
            order_id: 42,
        })))
    );
    let (state, step) = state.step(Reply::OutboxWritten(entry()));
    assert_eq!(step, Step::Run(Command::Commit));
    let (state, step) = state.step(Reply::Committed);
    assert_eq!(
        step,
        Step::Done(Ok(UpdateDeliveryStateRes { updated_delivery: d, delivery_log: l }))
    );
    assert_eq!(state, Transition::Closed);
    let (_, step) = state.step(Reply::Committed);
    assert_eq!(step, Step::Halt);
}

#[test]
fn transition_script_into_another_status_writes_no_event() {
    let (state, _) = Transition::start(7, request("EN_ROUTE"), TransitionPolicy::AnyListed);
    let (state, _) = state.step(Reply::Begun);
    let d = delivery(7, 42, DeliveryStatus::EnRoute);
    let (state, _) = state.step(Reply::DeliveryUpdated(d.clone()));
    let l = log(9, 7, DeliveryStatus::EnRoute);
    let (state, step) = state.step(Reply::LogInserted(l.clone()));
    assert_eq!(step, Step::Run(Command::Commit));
    let (_, step) = state.step(Reply::Committed);
    assert_eq!(
        step,
        Step::Done(Ok(UpdateDeliveryStateRes { updated_delivery: d, delivery_log: l }))
    );
}

#[test]
fn sequential_transition_reads_the_delivery_first() {
    let (state, _) = Transition::start(7, request("EN_ROUTE"), TransitionPolicy::Sequential);
    let (state, step) = state.step(Reply::Begun);
    assert_eq!(step, Step::Run(Command::LoadDelivery(7)));
    let (_, step) = state.step(Reply::DeliveryLoaded(delivery(7, 42, DeliveryStatus::Preparing)));
    assert_eq!(
        step,
        Step::Run(Command::UpdateStatus { id: 7, status: DeliveryStatus::EnRoute })
    );
}

#[test]
fn sequential_transition_refuses_a_move_out_of_order() {
    let cases = [
        ("PREPARING", DeliveryStatus::Preparing),
        ("DELIVERED", DeliveryStatus::Preparing),
        ("PREPARING", DeliveryStatus::EnRoute),
        ("EN_ROUTE", DeliveryStatus::EnRoute),
        ("PREPARING", DeliveryStatus::Delivered),
        ("EN_ROUTE", DeliveryStatus::Delivered),
        ("DELIVERED", DeliveryStatus::Delivered),
    ];
    for (target, current) in cases {
        let (state, _) = Transition::start(7, request(target), TransitionPolicy::Sequential);
        let (state, _) = state.step(Reply::Begun);
        let (state, step) = state.step(Reply::DeliveryLoaded(delivery(7, 42, current)));
        assert_eq!(step, Step::Run(Command::Rollback));
        let (_, step) = state.step(Reply::RolledBack);
        assert_eq!(step, Step::Done(Err(Error::InvalidTransition)));
    }
}

#[test]
fn transition_of_a_missing_delivery_is_not_found() {
    let (state, _) = Transition::start(7, request("EN_ROUTE"), TransitionPolicy::AnyListed);
    let (state, _) = state.step(Reply::Begun);
    let (state, step) = state.step(Reply::DeliveryMissing);
    assert_eq!(step, Step::Run(Command::Rollback));
    let (_, step) = state.step(Reply::RolledBack);
    assert_eq!(step, Step::Done(Err(Error::NotFound)));

    let (state, _) = Transition::start(7, request("EN_ROUTE"), TransitionPolicy::Sequential);
    let (state, _) = state.step(Reply::Begun);
    let (state, step) = state.step(Reply::DeliveryMissing);
    assert_eq!(step, Step::Run(Command::Rollback));
    let (_, step) = state.step(Reply::RolledBack);
    assert_eq!(step, Step::Done(Err(Error::NotFound)));
}

#[test]
fn transition_rolls_back_on_any_storage_fault() {
    let (state, _) = Transition::start(7, request("DELIVERED"), TransitionPolicy::AnyListed);
    let (state, step) = state.step(Reply::Failed);
    assert_eq!(step, Step::Done(Err(Error::PersistenceError)));
    assert_eq!(state, Transition::Closed);

    let (state, _) = Transition::start(7, request("DELIVERED"), TransitionPolicy::AnyListed);
    let (state, _) = state.step(Reply::Begun);
    let (state, step) = state.step(Reply::Failed);
    assert_eq!(step, Step::Run(Command::Rollback));
    let (_, step) = state.step(Reply::RolledBack);
    assert_eq!(step, Step::Done(Err(Error::PersistenceError)));

    let (state, _) = Transition::start(7, request("DELIVERED"), TransitionPolicy::AnyListed);
    let (state, _) = state.step(Reply::Begun);
    let (state, _) = state.step(Reply::DeliveryUpdated(delivery(7, 42, DeliveryStatus::Delivered)));
    let (state, step) = state.step(Reply::Failed);
    assert_eq!(step, Step::Run(Command::Rollback));
    let (_, step) = state.step(Reply::RolledBack);
    assert_eq!(step, Step::Done(Err(Error::PersistenceError)));

    let (state, _) = Transition::start(7, request("DELIVERED"), TransitionPolicy::AnyListed);
    let (state, _) = state.step(Reply::Begun);
    let (state, _) = state.step(Reply::DeliveryUpdated(delivery(7, 42, DeliveryStatus::Delivered)));
    let (state, _) = state.step(Reply::LogInserted(log(9, 7, DeliveryStatus::Delivered)));
    let (state, step) = state.step(Reply::Failed);
    assert_eq!(step, Step::Run(Command::Rollback));
    let (_, step) = state.step(Reply::RolledBack);
    assert_eq!(step, Step::Done(Err(Error::PersistenceError)));

    let (state, _) = Transition::start(7, request("EN_ROUTE"), TransitionPolicy::AnyListed);
    let (state, _) = state.step(Reply::Begun);
    let (state, _) = state.step(Reply::DeliveryUpdated(delivery(7, 42, DeliveryStatus::EnRoute)));
    let (state, _) = state.step(Reply::LogInserted(log(9, 7, DeliveryStatus::EnRoute)));
    let (state, step) = state.step(Reply::Failed);
    assert_eq!(step, Step::Done(Err(Error::PersistenceError)));
    assert_eq!(state, Transition::Closed);
}
