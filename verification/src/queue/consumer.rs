use vstd::prelude::*;

verus! {

/// The tag under which the service consumes its queue.
pub open spec fn consumer_tag_text() -> Seq<char> {
    "vectoriser_consumer"@
}

/// How an exchange routes messages to the queues bound to it.
#[derive(Debug, Clone, Copy, PartialEq, Eq, Structural)]
pub enum ExchangeKind {
    Direct,
    Fanout,
    Topic,
    Headers,
}

/// The exchange, queue and binding that the consumer declares before it
/// consumes, and the tag it consumes under.
pub struct ConsumerTopology {
    pub exchange: String,
    pub exchange_kind: ExchangeKind,
    pub exchange_durable: bool,
    pub queue: String,
    pub queue_durable: bool,
    pub routing_key: String,
    pub consumer_tag: String,
}

/// The topology the consumer sets up: a durable topic exchange, a durable
/// queue bound to it under `routing_key`, consumed as `vectoriser_consumer`.
pub fn consumer_topology(exchange: &str, queue: &str, routing_key: &str) -> (topology:
    ConsumerTopology)
    ensures
        topology.exchange@ == exchange@,
        topology.exchange_kind == ExchangeKind::Topic,
        topology.exchange_durable,
        topology.queue@ == queue@,
        topology.queue_durable,
        topology.routing_key@ == routing_key@,
        topology.consumer_tag@ == consumer_tag_text(),
{
    ConsumerTopology {
        exchange: String::from_str(exchange),
        exchange_kind: ExchangeKind::Topic,
        exchange_durable: true,
        queue: String::from_str(queue),
        queue_durable: true,
        routing_key: String::from_str(routing_key),
        consumer_tag: String::from_str("vectoriser_consumer"),
    }
}

/// What became of a delivered message.
#[derive(Debug, Clone, Copy, PartialEq, Eq, Structural)]
pub enum DeliveryOutcome {
    /// The payload was a valid event and handling it succeeded.
    Handled,
    /// The payload was a valid event but handling it failed.
    HandlingFailed,
    /// The payload was not a valid event.
    Undecodable,
}

/// How a delivered message is settled with the broker.
#[derive(Debug, Clone, Copy, PartialEq, Eq, Structural)]
pub enum Settlement {
    Ack,
    Nack { requeue: bool },
}

/// The settlement of a delivery: acknowledged when handled; rejected and
/// put back on the queue when handling failed, to be tried again; rejected
/// for good when the payload could not be read, since no retry can mend it.
pub fn settle_delivery(outcome: DeliveryOutcome) -> (settlement: Settlement)
    ensures
        settlement == match outcome {
            DeliveryOutcome::Handled => Settlement::Ack,
            DeliveryOutcome::HandlingFailed => Settlement::Nack { requeue: true },
            DeliveryOutcome::Undecodable => Settlement::Nack { requeue: false },
        },
{
    match outcome {
        DeliveryOutcome::Handled => Settlement::Ack,
        DeliveryOutcome::HandlingFailed => Settlement::Nack { requeue: true },
        DeliveryOutcome::Undecodable => Settlement::Nack { requeue: false },
    }
}

} // verus!
