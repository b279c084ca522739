use vectoriser::queue::consumer::{
    consumer_topology, settle_delivery, DeliveryOutcome, ExchangeKind, Settlement,
};
use vectoriser::queue::publisher::{vectors_ready_message, PERSISTENT_DELIVERY_MODE};

#[test]
fn handled_deliveries_are_acknowledged() {
    assert_eq!(settle_delivery(DeliveryOutcome::Handled), Settlement::Ack);
}

#[test]
fn failed_handling_is_retried() {
    assert_eq!(settle_delivery(DeliveryOutcome::HandlingFailed), Settlement::Nack { requeue: true });
}

#[test]
fn undecodable_payloads_are_dropped() {
    assert_eq!(settle_delivery(DeliveryOutcome::Undecodable), Settlement::Nack { requeue: false });
}

#[test]
fn consumer_declares_durable_topic_topology() {
    let t = consumer_topology("documents", "vectoriser", "document.parsed");
    assert_eq!(t.exchange, "documents");
    assert_eq!(t.exchange_kind, ExchangeKind::Topic);
    assert!(t.exchange_durable);
    assert_eq!(t.queue, "vectoriser");
    assert!(t.queue_durable);
    assert_eq!(t.routing_key, "document.parsed");
    assert_eq!(t.consumer_tag, "vectoriser_consumer");
}

#[test]
fn ready_messages_are_persistent_json() {
    let m = vectors_ready_message("vectors", "vectors.ready", b"{}".to_vec());
    assert_eq!(m.exchange, "vectors");
    assert_eq!(m.routing_key, "vectors.ready");
    assert_eq!(m.payload, b"{}".to_vec());
    assert_eq!(m.content_type, "application/json");
    assert_eq!(m.delivery_mode, 2);
    assert_eq!(PERSISTENT_DELIVERY_MODE, 2);
}
