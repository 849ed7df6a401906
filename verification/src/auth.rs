pub mod constant;
pub mod controller;
pub mod entity;
pub mod error;
pub mod jwt;
