use medbook_deliveryservice::events::{
    order_request_topic_name, DeliveryCreatedEvent, DeliverySuccessEvent, OutboundEvent,
};

#[test]
fn delivery_created_payload_is_compact_json_in_field_order() {
    let event = DeliveryCreatedEvent {
        order_id: 42,
        delivery_id: 0x67e55044_10b1_426f_9247_bb680e5fe0c8,
    };
    assert_eq!(
        event.encode(),
        "{\"order_id\":42,\"delivery_id\":\"67e55044-10b1-426f-9247-bb680e5fe0c8\"}"
    );
}

#[test]
fn delivery_success_payload_is_compact_json() {
    assert_eq!(DeliverySuccessEvent { order_id: 42 }.encode(), "{\"order_id\":42}");
    assert_eq!(DeliverySuccessEvent { order_id: 0 }.encode(), "{\"order_id\":0}");
    assert_eq!(DeliverySuccessEvent { order_id: -7 }.encode(), "{\"order_id\":-7}");
    assert_eq!(
        DeliverySuccessEvent { order_id: i32::MIN }.encode(),
        "{\"order_id\":-2147483648}"
    );
}

#[test]
fn payloads_read_back_as_json() {
    let id: u128 = 0x00112233_4455_6677_8899_aabbccddeeff;
    let event = OutboundEvent::DeliveryCreated(DeliveryCreatedEvent { order_id: 9001, delivery_id: id });
    let value: serde_json::Value = serde_json::from_str(&event.encode()).unwrap();
    let object = value.as_object().unwrap();
    assert_eq!(object.len(), 2);
    assert_eq!(object.get("order_id").unwrap().as_i64(), Some(9001));
    let text = object.get("delivery_id").unwrap().as_str().unwrap();
    assert_eq!(uuid::Uuid::parse_str(text).unwrap().as_u128(), id);

    let event = OutboundEvent::DeliverySuccess(DeliverySuccessEvent { order_id: -3 });
    let value: serde_json::Value = serde_json::from_str(&event.encode()).unwrap();
    let object = value.as_object().unwrap();
    assert_eq!(object.len(), 1);
    assert_eq!(object.get("order_id").unwrap().as_i64(), Some(-3));
}

#[test]
fn created_payload_equals_what_serde_writes_for_the_same_fields() {
    let id: u128 = 0xdeadbeef_0000_4000_8000_000000000001;
    let event = DeliveryCreatedEvent { order_id: 17, delivery_id: id };
    let order = serde_json::to_string(&17i32).unwrap();
    let delivery = serde_json::to_string(&uuid::Uuid::from_u128(id)).unwrap();
    let expected = format!("{{\"order_id\":{},\"delivery_id\":{}}}", order, delivery);
    assert_eq!(event.encode(), expected);
}

#[test]
fn topics_of_the_events() {
    let created = OutboundEvent::DeliveryCreated(DeliveryCreatedEvent { order_id: 1, delivery_id: 2 });
    let success = OutboundEvent::DeliverySuccess(DeliverySuccessEvent { order_id: 1 });
    assert_eq!(created.event_type(), "orders.delivery_created");
    assert_eq!(success.event_type(), "orders.delivery_success");
    assert_eq!(order_request_topic_name(), "delivery.order_request");
    assert_eq!(created.order_id(), 1);
    assert_eq!(success.order_id(), 1);
}
