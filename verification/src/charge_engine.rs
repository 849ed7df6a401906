pub mod engine;
pub mod entity;
pub mod error;
