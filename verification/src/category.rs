pub mod constant;
pub mod entity;
pub mod error;
pub mod model;
pub mod service;
