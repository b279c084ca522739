pub mod resume;
