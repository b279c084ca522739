use vstd::prelude::*;

verus! {

/// The delivery mode of a message that the broker keeps on disk.
pub const PERSISTENT_DELIVERY_MODE: u8 = 2;

/// A message to publish, with the properties it is published with.
pub struct OutgoingMessage {
    pub exchange: String,
    pub routing_key: String,
    pub payload: Vec<u8>,
    pub content_type: String,
    pub delivery_mode: u8,
}

/// The message that announces ready vectors: the encoded event `payload`,
/// sent to `exchange` under `routing_key` as persistent JSON.
pub fn vectors_ready_message(exchange: &str, routing_key: &str, payload: Vec<u8>) -> (message:
    OutgoingMessage)
    ensures
        message.exchange@ == exchange@,
        message.routing_key@ == routing_key@,
        message.payload@ == payload@,
        message.content_type@ == "application/json"@,
        message.delivery_mode == PERSISTENT_DELIVERY_MODE,
{
    OutgoingMessage {
        exchange: String::from_str(exchange),
        routing_key: String::from_str(routing_key),
        payload,
        content_type: String::from_str("application/json"),
        delivery_mode: PERSISTENT_DELIVERY_MODE,
    }
}

} // verus!
