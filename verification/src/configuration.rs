pub mod environment;
pub mod otel;
pub mod redis;
