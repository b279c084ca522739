//! Verified core of the vectoriser service: the rules that turn stored
//! documents into embedding inputs, decide what a message handler does next,
//! and shape what is written to the vector store and the message broker.

pub mod models;
pub mod json;
pub mod db;
pub mod embedding;
pub mod ids;
pub mod vector_store;
pub mod handlers;
pub mod queue;
pub mod cli;
pub mod config;
