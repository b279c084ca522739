# vectoriser

A service that embeds parsed resumes and job analyses into a vector store.
It consumes document events from a message queue, reads the document from
PostgreSQL, embeds its sections, replaces the document's vectors in Qdrant and
publishes an event naming the stored vectors.

- `src/` is the verified library: the document model and text extraction
  (`json`, `db::queries`), the choice of sections to embed
  (`embedding::chunker`), the handler of a document event as a state machine
  (`handlers::resume`), the settlement of deliveries and the published message
  (`queue`), the requests to the vector store (`vector_store::qdrant`) and the
  UUID helpers (`ids`).
- `app/` is the program around it: configuration, database, embedding model,
  broker and vector-store clients, and the loop that carries out the steps the
  handler asks for.
- `tests/` exercises the library on concrete values.

## Configuration

The service reads its settings from the environment (a `.env` file is loaded
first): `POSTGRES_URL`, `QDRANT_URL`, `QDRANT_COLLECTION`, `RABBITMQ_URL`,
`RABBITMQ_CONSUME_QUEUE`, `RABBITMQ_PUBLISH_EXCHANGE`,
`RABBITMQ_PUBLISH_ROUTING_KEY` and `EMBEDDING_BATCH_SIZE`. Two more settings
name what the consumed queue is bound to: `RABBITMQ_CONSUME_EXCHANGE` (the
durable topic exchange that document events arrive on) and
`RABBITMQ_CONSUME_ROUTING_KEY` (the key the queue is bound under).

## Building the program

The embedding model runs through `fastembed`, whose `onnx` and `hf-hub`
features (the ONNX runtime and the model download) are needed by
`app/embedding.rs`. Together they add close to a hundred packages to the
dependency tree, so `Cargo.toml` names `fastembed` without them, and the
program does not build as it stands: the library and its tests do. To build
the program, enable them:
`fastembed = { version = "7.5", default-features = false, features = ["ort-load-dynamic", "hf-hub-rustls-tls"] }`.
