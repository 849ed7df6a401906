//! The results of the charge engine, shared with the charge service.

pub use crate::charge::constant::{ChargeCardAttemptResult, ChargeEngineResult};
