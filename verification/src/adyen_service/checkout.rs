pub mod constant;
pub mod error;
pub mod request;
pub mod service;
