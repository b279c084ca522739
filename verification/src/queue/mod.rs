pub mod consumer;
pub mod publisher;
