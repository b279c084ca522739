pub mod qdrant;
