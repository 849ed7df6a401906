pub mod error;
pub mod model;
pub mod request;
