//! Card routing and payment orchestration: the decision logic, verified.

pub mod adyen;
pub mod api_error;
pub mod adyen_service;
pub mod asa;
pub mod asa_request;
pub mod auth;
pub mod category;
pub mod charge;
pub mod charge_engine;
pub mod common;
pub mod configuration;
pub mod credit_card_type;
pub mod data_error;
pub mod environment;
pub mod error;
pub mod error_type;
pub mod footprint;
pub mod foreign;
pub mod ledger;
pub mod passthrough_card;
pub mod service_error;
pub mod text;
pub mod user;
pub mod wallet;
