//! The events that the service receives and emits, and their wire form.
//!
//! Outbound payloads are compact JSON objects whose fields always come in the
//! same order, so that consumers can rely on the exact text.

use crate::text::{decimal, hyphenated, push_decimal, push_hyphenated};
use vstd::prelude::*;
use vstd::string::*;

verus! {

/// Inbound on `delivery.order_request`: an order asks for a delivery.
#[derive(Debug, PartialEq, Eq)]
pub struct DeliveryOrderRequestEvent {
    pub delivery_address: serde_json::Value,
    pub order_id: i32,
}

/// Outbound on `orders.delivery_created`: a delivery now exists for the order.
#[derive(Clone, Copy, Debug, PartialEq, Eq, Structural)]
pub struct DeliveryCreatedEvent {
    pub order_id: i32,
    pub delivery_id: u128,
}

/// Outbound on `orders.delivery_success`: the order's delivery has arrived.
#[derive(Clone, Copy, Debug, PartialEq, Eq, Structural)]
pub struct DeliverySuccessEvent {
    pub order_id: i32,
}

/// An event of this service that is queued in the outbox.
#[derive(Clone, Copy, Debug, PartialEq, Eq, Structural)]
pub enum OutboundEvent {
    DeliveryCreated(DeliveryCreatedEvent),
    DeliverySuccess(DeliverySuccessEvent),
}

/// The topic on which order requests arrive.
pub open spec fn order_request_topic() -> Seq<char> {
    "delivery.order_request"@
}

/// The topic on which order requests arrive.
pub fn order_request_topic_name() -> (r: &'static str)
    ensures
        r@ == order_request_topic(),
{
    "delivery.order_request"
}

/// The topic on which new deliveries are announced.
pub open spec fn delivery_created_topic() -> Seq<char> {
    "orders.delivery_created"@
}

/// The topic on which arrivals are announced.
pub open spec fn delivery_success_topic() -> Seq<char> {
    "orders.delivery_success"@
}

impl DeliveryCreatedEvent {
    /// The JSON text of the event: `{"order_id":N,"delivery_id":"U"}`, with
    /// `N` in decimal and `U` in hyphenated form.
    pub open spec fn payload(self) -> Seq<char> {
        "{\"order_id\":"@ + decimal(self.order_id as int) + ",\"delivery_id\":\""@ + hyphenated(
            self.delivery_id,
        ) + "\"}"@
    }

    /// The JSON text of the event.
    pub fn encode(&self) -> (r: String)
        ensures
            r@ == self.payload(),
    {
        let mut out = String::from_str("{\"order_id\":");
        push_decimal(&mut out, self.order_id);
        out.append(",\"delivery_id\":\"");
        push_hyphenated(&mut out, self.delivery_id);
        out.append("\"}");
        out
    }
}

impl DeliverySuccessEvent {
    /// The JSON text of the event: `{"order_id":N}`, with `N` in decimal.
    pub open spec fn payload(self) -> Seq<char> {
        "{\"order_id\":"@ + decimal(self.order_id as int) + "}"@
    }

    /// The JSON text of the event.
    pub fn encode(&self) -> (r: String)
        ensures
            r@ == self.payload(),
    {
        let mut out = String::from_str("{\"order_id\":");
        push_decimal(&mut out, self.order_id);
        out.append("}");
        out
    }
}

impl OutboundEvent {
    /// The topic that the event is published on; it tags the payload's schema.
    pub open spec fn topic(self) -> Seq<char> {
        match self {
            OutboundEvent::DeliveryCreated(_) => delivery_created_topic(),
            OutboundEvent::DeliverySuccess(_) => delivery_success_topic(),
        }
    }

    /// The JSON text of the event.
    pub open spec fn payload(self) -> Seq<char> {
        match self {
            OutboundEvent::DeliveryCreated(e) => e.payload(),
            OutboundEvent::DeliverySuccess(e) => e.payload(),
        }
    }

    /// The order that the event is about.
    pub open spec fn order(self) -> i32 {
        match self {
            OutboundEvent::DeliveryCreated(e) => e.order_id,
            OutboundEvent::DeliverySuccess(e) => e.order_id,
        }
    }

    /// The topic that the event is published on.
    pub fn event_type(&self) -> (r: &'static str)
        ensures
            r@ == self.topic(),
    {
        match self {
            OutboundEvent::DeliveryCreated(_) => "orders.delivery_created",
            OutboundEvent::DeliverySuccess(_) => "orders.delivery_success",
        }
    }

    /// The JSON text of the event.
    pub fn encode(&self) -> (r: String)
        ensures
            r@ == self.payload(),
    {
        match self {
            OutboundEvent::DeliveryCreated(e) => e.encode(),
            OutboundEvent::DeliverySuccess(e) => e.encode(),
        }
    }

    /// The order that the event is about.
    pub fn order_id(&self) -> (r: i32)
        ensures
            r == self.order(),
    {
        match self {
            OutboundEvent::DeliveryCreated(e) => e.order_id,
            OutboundEvent::DeliverySuccess(e) => e.order_id,
        }
    }

    /// The two topics differ, so a topic tells which event a payload holds.
    pub proof fn topics_differ(self, other: OutboundEvent)
        ensures
            self.topic() == other.topic() <==> (self is DeliveryCreated <==> other is DeliveryCreated),
    {
        reveal_strlit("orders.delivery_created");
        reveal_strlit("orders.delivery_success");
        assert("orders.delivery_success"@[16] == 's');
    }
}

} // verus!
