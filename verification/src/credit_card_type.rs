pub mod constant;
pub mod controller;
pub mod entity;
pub mod error;
pub mod model;
pub mod response;
pub mod service;
pub mod typedef;
