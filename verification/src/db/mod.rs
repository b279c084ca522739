pub mod queries;
