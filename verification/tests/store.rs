use medbook_deliveryservice::error::Error;
use medbook_deliveryservice::events::{DeliveryCreatedEvent, DeliverySuccessEvent, OutboundEvent};
use medbook_deliveryservice::models::{
    CreateDeliveryEntity, CreateDeliveryLogEntity, DeliveryEntity, DeliveryLogEntity, Stamp,
};
use medbook_deliveryservice::outbox::OutboxEntry;
use medbook_deliveryservice::status::{DeliveryStatus, OutboxStatus};
use medbook_deliveryservice::storage::{Command, Reply};
use medbook_deliveryservice::store::Store;

fn address() -> serde_json::Value {
    let mut map = serde_json::Map::new();
    map.insert("street".to_string(), serde_json::Value::String("1 Main St".to_string()));
    map.insert("floor".to_string(), serde_json::Value::from(3));
    serde_json::Value::Object(map)
}

fn columns(order_id: i32) -> CreateDeliveryEntity {
    CreateDeliveryEntity::new(order_id, address())
}

fn line(delivery_id: u128, status: DeliveryStatus) -> CreateDeliveryLogEntity {
    CreateDeliveryLogEntity { delivery_id, description: "noted".to_string(), status }
}

#[test]
fn a_new_store_is_empty() {
    let store = Store::new();
    assert!(store.deliveries().is_empty());
    assert!(store.delivery_logs().is_empty());
    assert!(store.outbox().is_empty());
    assert!(!store.in_transaction());
    assert!(store.drain_pending(10).is_empty());
}

#[test]
fn only_one_transaction_at_a_time() {
    let mut store = Store::new();
    assert_eq!(store.begin(), Ok(()));
    assert!(store.in_transaction());
    assert_eq!(store.begin(), Err(Error::PersistenceError));
    assert_eq!(store.commit(), Ok(()));
    assert!(!store.in_transaction());
    assert_eq!(store.commit(), Err(Error::PersistenceError));
}

#[test]
fn writes_need_a_transaction() {
    let mut store = Store::new();
    let stamp = Stamp { id: 1, now: 10 };
    assert_eq!(store.insert_delivery(columns(1), stamp), Err(Error::PersistenceError));
    assert_eq!(
        store.update_status(1, DeliveryStatus::EnRoute, 10),
        Err(Error::PersistenceError)
    );
    assert_eq!(
        store.insert_log(line(1, DeliveryStatus::EnRoute), stamp),
        Err(Error::PersistenceError)
    );
    assert_eq!(
        store.publish("t".to_string(), "{}".to_string(), 10),
        Err(Error::PersistenceError)
    );
    assert!(store.deliveries().is_empty());
    assert!(store.outbox().is_empty());
}

#[test]
fn committed_rows_become_visible_and_rolled_back_rows_do_not() {
    let mut store = Store::new();
    store.begin().unwrap();
    let d = store.insert_delivery(columns(42), Stamp { id: 7, now: 100 }).unwrap();
    assert_eq!(
        d,
        DeliveryEntity {
            id: 7,
            delivery_address: address(),
            order_id: 42,
            status: DeliveryStatus::Preparing,
            created_at: 100,
            updated_at: 100,
        }
    );
    assert!(store.deliveries().is_empty());
    assert_eq!(store.load_delivery(7), Ok(d.clone()));
    store.rollback();
    assert!(store.deliveries().is_empty());
    assert_eq!(store.load_delivery(7), Err(Error::NotFound));

    store.begin().unwrap();
    store.insert_delivery(columns(42), Stamp { id: 7, now: 100 }).unwrap();
    store.commit().unwrap();
    assert_eq!(store.deliveries(), &vec![d.clone()]);
    assert_eq!(store.load_delivery(7), Ok(d));
}

#[test]
fn delivery_identifiers_are_unique() {
    let mut store = Store::new();
    store.begin().unwrap();
    store.insert_delivery(columns(1), Stamp { id: 7, now: 100 }).unwrap();
    assert_eq!(
        store.insert_delivery(columns(2), Stamp { id: 7, now: 101 }),
        Err(Error::PersistenceError)
    );
    store.insert_delivery(columns(2), Stamp { id: 8, now: 101 }).unwrap();
    store.commit().unwrap();
    assert_eq!(store.deliveries().len(), 2);
    assert_eq!(store.deliveries()[0].order_id, 1);
    assert_eq!(store.deliveries()[1].order_id, 2);
}

#[test]
fn update_status_changes_status_and_update_time_only() {
    let mut store = Store::new();
    store.begin().unwrap();
    store.insert_delivery(columns(1), Stamp { id: 7, now: 100 }).unwrap();
    store.insert_delivery(columns(2), Stamp { id: 8, now: 100 }).unwrap();
    let d = store.update_status(8, DeliveryStatus::EnRoute, 250).unwrap();
    assert_eq!(
        d,
        DeliveryEntity {
            id: 8,
            delivery_address: address(),
            order_id: 2,
            status: DeliveryStatus::EnRoute,
            created_at: 100,
            updated_at: 250,
        }
    );
    assert_eq!(store.update_status(9, DeliveryStatus::EnRoute, 250), Err(Error::NotFound));
    store.commit().unwrap();
    assert_eq!(store.deliveries()[0].status, DeliveryStatus::Preparing);
    assert_eq!(store.deliveries()[0].updated_at, 100);
    assert_eq!(store.deliveries()[1], d);
}

#[test]
fn audit_lines_need_a_delivery_and_a_fresh_identifier() {
    let mut store = Store::new();
    store.begin().unwrap();
    store.insert_delivery(columns(1), Stamp { id: 7, now: 100 }).unwrap();
    assert_eq!(
        store.insert_log(line(99, DeliveryStatus::EnRoute), Stamp { id: 1, now: 110 }),
        Err(Error::PersistenceError)
    );
    let l = store.insert_log(line(7, DeliveryStatus::EnRoute), Stamp { id: 1, now: 110 }).unwrap();
    assert_eq!(
        l,
        DeliveryLogEntity {
            id: 1,
            delivery_id: 7,
            description: "noted".to_string(),
            status: DeliveryStatus::EnRoute,
            created_at: 110,
            updated_at: 110,
        }
    );
    assert_eq!(
        store.insert_log(line(7, DeliveryStatus::Delivered), Stamp { id: 1, now: 120 }),
        Err(Error::PersistenceError)
    );
    store.commit().unwrap();
    assert_eq!(store.delivery_logs(), &vec![l]);
}

#[test]
fn publish_writes_a_pending_entry_inside_the_open_transaction() {
    let mut store = Store::new();
    store.begin().unwrap();
    let e = store.publish("orders.test".to_string(), "{\"a\":1}".to_string(), 500).unwrap();
    assert_eq!(
        e,
        OutboxEntry {
            id: 1,
            event_type: "orders.test".to_string(),
            payload: "{\"a\":1}".to_string(),
            status: OutboxStatus::Pending,
            created_at: 500,
            updated_at: 500,
        }
    );
    assert!(store.in_transaction());
    assert!(store.outbox().is_empty());
    assert!(store.drain_pending(10).is_empty());
    let second = store.publish("orders.test".to_string(), "{}".to_string(), 501).unwrap();
    assert_eq!(second.id, 2);
    store.commit().unwrap();
    assert_eq!(store.outbox().len(), 2);
    assert_eq!(store.drain_pending(10), vec![e, second]);
}

#[test]
fn publish_in_a_rolled_back_transaction_leaves_no_entry() {
    let mut store = Store::new();
    store.begin().unwrap();
    store.publish("orders.test".to_string(), "{}".to_string(), 500).unwrap();
    store.rollback();
    assert!(store.outbox().is_empty());
    store.begin().unwrap();
    let e = store.publish("orders.test".to_string(), "{}".to_string(), 600).unwrap();
    assert_eq!(e.id, 1);
}

#[test]
fn drain_twice_returns_the_same_entries() {
    let mut store = Store::new();
    store.begin().unwrap();
    store.publish("a".to_string(), "1".to_string(), 30).unwrap();
    store.publish("b".to_string(), "2".to_string(), 10).unwrap();
    store.publish("c".to_string(), "3".to_string(), 20).unwrap();
    store.commit().unwrap();
    let first = store.drain_pending(2);
    let second = store.drain_pending(2);
    assert_eq!(first, second);
    assert_eq!(first.iter().map(|e| e.id).collect::<Vec<i32>>(), vec![2, 3]);
    assert_eq!(store.outbox().len(), 3);
}

#[test]
fn a_sent_entry_never_comes_back() {
    let mut store = Store::new();
    store.begin().unwrap();
    store.publish("a".to_string(), "1".to_string(), 10).unwrap();
    store.publish("b".to_string(), "2".to_string(), 20).unwrap();
    store.commit().unwrap();
    assert_eq!(store.mark_sent(1, 99), Ok(()));
    assert_eq!(store.outbox()[0].status, OutboxStatus::Sent);
    assert_eq!(store.outbox()[0].updated_at, 99);
    assert_eq!(store.outbox()[0].created_at, 10);
    assert_eq!(store.outbox()[0].payload, "1");
    assert_eq!(store.drain_pending(10).iter().map(|e| e.id).collect::<Vec<i32>>(), vec![2]);

    store.begin().unwrap();
    store.publish("c".to_string(), "3".to_string(), 5).unwrap();
    store.commit().unwrap();
    assert_eq!(store.drain_pending(10).iter().map(|e| e.id).collect::<Vec<i32>>(), vec![3, 2]);
    assert_eq!(store.mark_sent(1, 120), Ok(()));
    assert_eq!(store.drain_pending(10).iter().map(|e| e.id).collect::<Vec<i32>>(), vec![3, 2]);
    assert_eq!(store.outbox().len(), 3);
}

#[test]
fn mark_sent_fails_for_an_unknown_entry_and_inside_a_transaction() {
    let mut store = Store::new();
    assert_eq!(store.mark_sent(1, 10), Err(Error::NotFound));
    store.begin().unwrap();
    store.publish("a".to_string(), "1".to_string(), 10).unwrap();
    assert_eq!(store.mark_sent(1, 10), Err(Error::PersistenceError));
    store.commit().unwrap();
    assert_eq!(store.mark_sent(2, 10), Err(Error::NotFound));
    assert_eq!(store.mark_sent(1, 10), Ok(()));
}

#[test]
fn execute_answers_each_command() {
    let mut store = Store::new();
    let stamp = Stamp { id: 7, now: 100 };
    assert_eq!(store.execute(Command::Commit, stamp), Reply::Failed);
    assert_eq!(store.execute(Command::InsertDelivery(columns(1)), stamp), Reply::Failed);
    assert_eq!(store.execute(Command::LoadDelivery(7), stamp), Reply::DeliveryMissing);
    assert_eq!(store.execute(Command::Begin, stamp), Reply::Begun);
    assert_eq!(store.execute(Command::Begin, stamp), Reply::Failed);
    let inserted = store.execute(Command::InsertDelivery(columns(1)), stamp);
    let row = DeliveryEntity {
        id: 7,
        delivery_address: address(),
        order_id: 1,
        status: DeliveryStatus::Preparing,
        created_at: 100,
        updated_at: 100,
    };
    assert_eq!(inserted, Reply::DeliveryInserted(row.clone()));
    assert_eq!(store.execute(Command::LoadDelivery(7), stamp), Reply::DeliveryLoaded(row));
    assert_eq!(
        store.execute(Command::UpdateStatus { id: 8, status: DeliveryStatus::EnRoute }, stamp),
        Reply::DeliveryMissing
    );
    let updated = store.execute(
        Command::UpdateStatus { id: 7, status: DeliveryStatus::Delivered },
        Stamp { id: 0, now: 150 },
    );
    assert!(matches!(updated, Reply::DeliveryUpdated(ref d) if d.status == DeliveryStatus::Delivered && d.updated_at == 150));
    let logged = store.execute(
        Command::InsertLog(line(7, DeliveryStatus::Delivered)),
        Stamp { id: 3, now: 150 },
    );
    assert!(matches!(logged, Reply::LogInserted(ref l) if l.id == 3 && l.delivery_id == 7));
    let event = OutboundEvent::DeliverySuccess(DeliverySuccessEvent { order_id: 1 });
    let written = store.execute(Command::WriteOutbox(event), Stamp { id: 0, now: 160 });
    assert_eq!(
        written,
        Reply::OutboxWritten(OutboxEntry {
            id: 1,
            event_type: "orders.delivery_success".to_string(),
            payload: "{\"order_id\":1}".to_string(),
            status: OutboxStatus::Pending,
            created_at: 160,
            updated_at: 160,
        })
    );
    assert_eq!(store.execute(Command::Commit, stamp), Reply::Committed);
    assert_eq!(store.deliveries().len(), 1);
    assert_eq!(store.delivery_logs().len(), 1);
    assert_eq!(store.outbox().len(), 1);
    assert_eq!(store.execute(Command::Rollback, stamp), Reply::RolledBack);
    assert_eq!(store.deliveries().len(), 1);
}

#[test]
fn execute_rollback_discards_the_transaction() {
    let mut store = Store::new();
    let stamp = Stamp { id: 7, now: 100 };
    assert_eq!(store.execute(Command::Begin, stamp), Reply::Begun);
    let event = OutboundEvent::DeliveryCreated(DeliveryCreatedEvent { order_id: 1, delivery_id: 7 });
    assert!(matches!(store.execute(Command::WriteOutbox(event), stamp), Reply::OutboxWritten(_)));
    assert_eq!(store.execute(Command::Rollback, stamp), Reply::RolledBack);
    assert!(!store.in_transaction());
    assert!(store.outbox().is_empty());
}
