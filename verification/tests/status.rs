use medbook_deliveryservice::status::{DeliveryStatus, OutboxStatus, TransitionPolicy};

#[test]
fn parses_the_three_status_names() {
    assert_eq!(DeliveryStatus::parse("PREPARING"), Some(DeliveryStatus::Preparing));
    assert_eq!(DeliveryStatus::parse("EN_ROUTE"), Some(DeliveryStatus::EnRoute));
    assert_eq!(DeliveryStatus::parse("DELIVERED"), Some(DeliveryStatus::Delivered));
}

#[test]
fn rejects_any_other_status_name() {
    assert_eq!(DeliveryStatus::parse("CANCELLED"), None);
    assert_eq!(DeliveryStatus::parse(""), None);
    assert_eq!(DeliveryStatus::parse("delivered"), None);
    assert_eq!(DeliveryStatus::parse("DELIVERED "), None);
    assert_eq!(DeliveryStatus::parse("DELIVERE"), None);
    assert_eq!(DeliveryStatus::parse("EN ROUTE"), None);
    assert_eq!(DeliveryStatus::parse("PRÉPARING"), None);
}

#[test]
fn status_names_read_back() {
    for s in [DeliveryStatus::Preparing, DeliveryStatus::EnRoute, DeliveryStatus::Delivered] {
        assert_eq!(DeliveryStatus::parse(s.as_str()), Some(s));
    }
    assert_eq!(DeliveryStatus::Preparing.as_str(), "PREPARING");
    assert_eq!(DeliveryStatus::EnRoute.as_str(), "EN_ROUTE");
    assert_eq!(DeliveryStatus::Delivered.as_str(), "DELIVERED");
}

#[test]
fn only_delivered_is_terminal() {
    assert!(!DeliveryStatus::Preparing.is_terminal());
    assert!(!DeliveryStatus::EnRoute.is_terminal());
    assert!(DeliveryStatus::Delivered.is_terminal());
    assert_eq!(DeliveryStatus::Preparing.next(), Some(DeliveryStatus::EnRoute));
    assert_eq!(DeliveryStatus::EnRoute.next(), Some(DeliveryStatus::Delivered));
    assert_eq!(DeliveryStatus::Delivered.next(), None);
}

#[test]
fn sequential_policy_allows_only_the_next_status() {
    let all = [DeliveryStatus::Preparing, DeliveryStatus::EnRoute, DeliveryStatus::Delivered];
    for from in all {
        for to in all {
            assert!(TransitionPolicy::AnyListed.allows(from, to));
            assert_eq!(TransitionPolicy::Sequential.allows(from, to), from.next() == Some(to));
        }
    }
    assert!(!TransitionPolicy::AnyListed.needs_current());
    assert!(TransitionPolicy::Sequential.needs_current());
}

#[test]
fn outbox_status_names() {
    assert_eq!(OutboxStatus::Pending.as_str(), "PENDING");
    assert_eq!(OutboxStatus::Sent.as_str(), "SENT");
    assert_eq!(OutboxStatus::parse("PENDING"), Some(OutboxStatus::Pending));
    assert_eq!(OutboxStatus::parse("SENT"), Some(OutboxStatus::Sent));
    assert_eq!(OutboxStatus::parse("IN_FLIGHT"), None);
}
