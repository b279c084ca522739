pub mod chunker;
