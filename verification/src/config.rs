use vstd::prelude::*;

verus! {

/// The service's settings, read from the environment.
pub struct Config {
    pub postgres_url: String,
    pub qdrant_url: String,
    pub qdrant_collection: String,
    pub rabbitmq_url: String,
    pub rabbitmq_consume_queue: String,
    pub rabbitmq_publish_exchange: String,
    pub rabbitmq_publish_routing_key: String,
    pub embedding_batch_size: usize,
}

} // verus!
